use mockloop_controller::cobs::{cobs_decode, cobs_encode};
use mockloop_controller::framing::{
    decode_report_frame, encode_report_frame, encode_setpoint_frame, FrameDecoder, FrameEvent,
    FRAME_BUFFER_CAPACITY,
};
use mockloop_controller::messages::{
    AdcFrame, AppState, HeartControllerSetpoint, Report, Setpoint,
};

fn heart_setpoint(rate: u32, ratio: u16, pressure: u32) -> Setpoint {
    Setpoint {
        enable: true,
        heart_controller_setpoint: Some(HeartControllerSetpoint {
            heart_rate_cpm: rate,
            systole_ratio_permille: ratio,
            pressure_mbar: pressure,
        }),
        mockloop_setpoint: None,
    }
}

#[test]
fn cobs_encodes_known_vectors() {
    // No zero in the payload: one block, code = length + 1.
    let data: Vec<u8> = vec![1, 2, 3];
    assert_eq!(cobs_encode(&data), vec![4, 1, 2, 3]);

    // The empty payload still encodes to one code byte.
    let empty: Vec<u8> = Vec::new();
    assert_eq!(cobs_encode(&empty), vec![1]);

    // Zeros split blocks; a trailing zero yields a final empty block.
    let zeros: Vec<u8> = vec![0];
    assert_eq!(cobs_encode(&zeros), vec![1, 1]);
    let mixed: Vec<u8> = vec![11, 0, 22, 33];
    assert_eq!(cobs_encode(&mixed), vec![2, 11, 3, 22, 33]);
}

#[test]
fn cobs_handles_the_longest_block() {
    // 254 non-zero bytes: a full block under code 255, then an empty one.
    let data: Vec<u8> = vec![7; 254];
    let enc = cobs_encode(&data);
    assert_eq!(enc.len(), 256);
    assert_eq!(enc[0], 255);
    assert_eq!(enc[255], 1);
    assert_eq!(cobs_decode(&enc), Some(data));

    // 300 bytes force a second block.
    let data2: Vec<u8> = vec![9; 300];
    let enc2 = cobs_encode(&data2);
    assert!(enc2.iter().all(|b| *b != 0));
    assert_eq!(cobs_decode(&enc2), Some(data2));
}

#[test]
fn cobs_roundtrip_is_the_identity() {
    let cases: Vec<Vec<u8>> = vec![
        vec![],
        vec![0],
        vec![0, 0, 0],
        vec![1],
        vec![1, 0],
        vec![0, 1],
        vec![255, 254, 0, 7],
        vec![5; 253],
        vec![5; 255],
    ];
    for data in cases {
        let enc = cobs_encode(&data);
        assert!(enc.iter().all(|b| *b != 0));
        assert_eq!(cobs_decode(&enc), Some(data));
    }
}

#[test]
fn cobs_rejects_malformed_encodings() {
    // A zero code byte.
    let zero_code: Vec<u8> = vec![0, 1, 2];
    assert_eq!(cobs_decode(&zero_code), None);
    // A block cut short.
    let truncated: Vec<u8> = vec![5, 1, 2];
    assert_eq!(cobs_decode(&truncated), None);
    // A zero inside a block.
    let zero_inside: Vec<u8> = vec![4, 1, 0, 3];
    assert_eq!(cobs_decode(&zero_inside), None);
}

#[test]
fn report_frame_roundtrip() {
    let report = Report {
        app_state: AppState::StandBy,
        measurements: AdcFrame {
            regulator_actual_pressure: 0,
            systemic_flow: 0,
            pulmonary_flow: 256,
            systemic_preload_pressure: 1,
            systemic_afterload_pressure: 0,
            pulmonary_preload_pressure: 65535,
            pulmonary_afterload_pressure: 0,
        }
        .into_measurement(0),
        setpoint: heart_setpoint(60, 300, 0),
    };
    let frame = encode_report_frame(&report);
    // Exactly one zero in the frame: its final delimiter.
    assert_eq!(frame.iter().filter(|b| **b == 0).count(), 1);
    assert_eq!(frame[frame.len() - 1], 0);
    assert_eq!(decode_report_frame(&frame), Some(report));
}

#[test]
fn decoder_yields_one_setpoint_per_frame() {
    let sp = heart_setpoint(80, 400, 1200);
    let frame = encode_setpoint_frame(&sp);
    let mut decoder = FrameDecoder::new();
    let events = decoder.push_bytes(&frame);
    let decoded: Vec<&FrameEvent> = events
        .iter()
        .filter(|e| matches!(e, FrameEvent::Decoded(_)))
        .collect();
    assert_eq!(decoded.len(), 1);
    assert_eq!(events[events.len() - 1], FrameEvent::Decoded(sp));
    for e in &events[..events.len() - 1] {
        assert_eq!(*e, FrameEvent::Pending);
    }
}

#[test]
fn embedded_delimiter_never_yields_a_second_setpoint() {
    // Corrupt a valid frame by forcing a delimiter into the middle of its
    // payload: the stream then holds two "frames", neither of which is a
    // well-formed encoding followed by the original tail.
    let sp = heart_setpoint(100, 350, 800);
    let mut frame = encode_setpoint_frame(&sp);
    let mid = frame.len() / 2;
    frame[mid] = 0;
    let mut decoder = FrameDecoder::new();
    let events = decoder.push_bytes(&frame);
    let setpoints = events
        .iter()
        .filter(|e| matches!(e, FrameEvent::Decoded(_)))
        .count();
    // At most one setpoint can come out of what was one frame on the wire.
    assert!(setpoints <= 1);
    // The copy that was cut short is not a well-formed frame.
    assert_eq!(events[mid], FrameEvent::Malformed);
}

#[test]
fn decoder_resynchronizes_after_a_corrupted_frame() {
    let sp = heart_setpoint(65, 250, 500);
    let mut decoder = FrameDecoder::new();

    // A corrupted frame: garbage bytes, then its delimiter.
    let garbage: Vec<u8> = vec![9, 9, 9, 0];
    let events = decoder.push_bytes(&garbage);
    assert_eq!(events[3], FrameEvent::Malformed);

    // The next, valid frame decodes normally.
    let frame = encode_setpoint_frame(&sp);
    let events2 = decoder.push_bytes(&frame);
    assert_eq!(events2[events2.len() - 1], FrameEvent::Decoded(sp));
}

#[test]
fn decoder_reports_overflow_and_recovers() {
    let mut decoder = FrameDecoder::new();
    let mut overflow_seen = false;
    // One more data byte than the buffer holds.
    for i in 0..(FRAME_BUFFER_CAPACITY + 1) {
        let ev = decoder.push_byte(1);
        if i < FRAME_BUFFER_CAPACITY {
            assert_eq!(ev, FrameEvent::Pending);
        } else {
            assert_eq!(ev, FrameEvent::Overflow);
            overflow_seen = true;
        }
    }
    assert!(overflow_seen);

    // Resynchronization: the tail of the overflown frame is dropped as
    // malformed on its delimiter, then a valid frame goes through.
    let sp = heart_setpoint(70, 300, 900);
    assert_eq!(decoder.push_byte(5), FrameEvent::Pending);
    assert_eq!(decoder.push_byte(0), FrameEvent::Malformed);
    let frame = encode_setpoint_frame(&sp);
    let events = decoder.push_bytes(&frame);
    assert_eq!(events[events.len() - 1], FrameEvent::Decoded(sp));
}

#[test]
fn empty_frame_is_malformed() {
    let mut decoder = FrameDecoder::new();
    // A delimiter with nothing accumulated: not a well-formed frame.
    assert_eq!(decoder.push_byte(0), FrameEvent::Malformed);
}
