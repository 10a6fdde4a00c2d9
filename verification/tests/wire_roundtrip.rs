use mockloop_controller::messages::{
    AdcFrame, AppState, HeartControllerSetpoint, MockloopSetpoint, Report, Setpoint,
};
use mockloop_controller::wire::{
    deserialize_report, deserialize_setpoint, serialize_report, serialize_setpoint, WireError,
    REPORT_BYTES, SETPOINT_BYTES,
};

fn full_setpoint() -> Setpoint {
    Setpoint {
        enable: true,
        heart_controller_setpoint: Some(HeartControllerSetpoint {
            heart_rate_cpm: 72,
            systole_ratio_permille: 300,
            pressure_mbar: 1500,
        }),
        mockloop_setpoint: Some(MockloopSetpoint {
            systemic_afterload_compliance: 11,
            pulmonary_afterload_compliance: 22,
            systemic_resistance: 33,
            pulmonary_resistance: 44,
        }),
    }
}

fn sample_report() -> Report {
    Report {
        app_state: AppState::Running,
        measurements: AdcFrame {
            regulator_actual_pressure: 101,
            systemic_flow: 5,
            pulmonary_flow: 4,
            systemic_preload_pressure: 80,
            systemic_afterload_pressure: 120,
            pulmonary_preload_pressure: 15,
            pulmonary_afterload_pressure: 25,
        }
        .into_measurement(123456789),
        setpoint: full_setpoint(),
    }
}

#[test]
fn setpoint_roundtrip_with_both_subsetpoints() {
    let s = full_setpoint();
    let bytes = serialize_setpoint(&s);
    assert_eq!(bytes.len(), SETPOINT_BYTES);
    assert_eq!(deserialize_setpoint(&bytes), Ok(s));
}

#[test]
fn setpoint_roundtrip_with_no_subsetpoints() {
    let s = Setpoint {
        enable: false,
        heart_controller_setpoint: None,
        mockloop_setpoint: None,
    };
    let bytes = serialize_setpoint(&s);
    assert_eq!(bytes.len(), SETPOINT_BYTES);
    assert_eq!(deserialize_setpoint(&bytes), Ok(s));
}

#[test]
fn setpoint_exact_layout() {
    let s = Setpoint {
        enable: true,
        heart_controller_setpoint: Some(HeartControllerSetpoint {
            heart_rate_cpm: 0x01020304,
            systole_ratio_permille: 0x0506,
            pressure_mbar: 0x0708090a,
        }),
        mockloop_setpoint: None,
    };
    let bytes = serialize_setpoint(&s);
    let expected: Vec<u8> = vec![
        1, // enable
        1, // heart-controller block present
        0x04, 0x03, 0x02, 0x01, // heart rate, little endian
        0x06, 0x05, // systole ratio, little endian
        0x0a, 0x09, 0x08, 0x07, // pressure, little endian
        0, // mockloop block absent
        0, 0, 0, 0, 0, 0, 0, 0, 0, 0, 0, 0, 0, 0, 0, 0,
    ];
    assert_eq!(bytes, expected);
}

#[test]
fn report_roundtrip() {
    let r = sample_report();
    let bytes = serialize_report(&r);
    assert_eq!(bytes.len(), REPORT_BYTES);
    assert_eq!(deserialize_report(&bytes), Ok(r));
}

#[test]
fn wrong_length_is_rejected() {
    let short: Vec<u8> = vec![0; SETPOINT_BYTES - 1];
    assert_eq!(deserialize_setpoint(&short), Err(WireError::Length));
    let long: Vec<u8> = vec![0; REPORT_BYTES + 1];
    assert_eq!(deserialize_report(&long), Err(WireError::Length));
    let empty: Vec<u8> = Vec::new();
    assert_eq!(deserialize_setpoint(&empty), Err(WireError::Length));
}

#[test]
fn bad_presence_tag_is_rejected() {
    let mut bytes = serialize_setpoint(&full_setpoint());
    bytes[1] = 7;
    assert_eq!(deserialize_setpoint(&bytes), Err(WireError::Tag));
    let mut bytes2 = serialize_setpoint(&full_setpoint());
    bytes2[12] = 255;
    assert_eq!(deserialize_setpoint(&bytes2), Err(WireError::Tag));
    let mut bytes3 = serialize_setpoint(&full_setpoint());
    bytes3[0] = 2;
    assert_eq!(deserialize_setpoint(&bytes3), Err(WireError::Tag));
}

#[test]
fn bad_mode_byte_is_rejected() {
    let mut bytes = serialize_report(&sample_report());
    bytes[0] = 3;
    assert_eq!(deserialize_report(&bytes), Err(WireError::Mode));
}
