//! Frame encoder and streaming frame decoder.
//!
//! On the wire a frame is the zero-elimination transform of a serialized
//! message followed by a single zero delimiter byte.  The encoder builds
//! outbound report frames.  The decoder consumes an unbounded inbound byte
//! stream one byte at a time, accumulates the bytes of the current frame in
//! a bounded buffer, and on every delimiter tries to turn the accumulated
//! bytes into a setpoint.  A malformed frame or a buffer overflow discards
//! the frame and the stream resynchronizes on the next delimiter.

use vstd::prelude::*;

verus! {

use crate::cobs::{
    cobs_decode,
    cobs_encode,
    lemma_cobs_round_trip,
    lemma_encode_len_bound,
    lemma_encode_zero_free,
    spec_cobs_decode,
    spec_cobs_encode,
};
use crate::messages::{Report, Setpoint};
use crate::wire::{
    deserialize_report,
    deserialize_setpoint,
    lemma_report_round_trip,
    lemma_setpoint_round_trip,
    serialize_report,
    serialize_setpoint,
    spec_deserialize_report,
    spec_deserialize_setpoint,
    spec_serialize_report,
    spec_serialize_setpoint,
    SETPOINT_BYTES,
};

/// The frame delimiter: the one byte value that never occurs inside an
/// encoded payload.
pub const FRAME_DELIMITER: u8 = 0;

/// Capacity of the accumulation buffer: four times the size of a setpoint
/// frame's payload, leaving ample margin for the encoding overhead.
pub const FRAME_BUFFER_CAPACITY: usize = SETPOINT_BYTES * 4;

/// What one consumed byte did to the decoder.
#[derive(Clone, Copy, Debug, PartialEq, Eq)]
pub enum FrameEvent {
    /// A data byte was accumulated; the frame is still incomplete.
    Pending,
    /// A delimiter completed a well-formed frame: here is its setpoint.
    Decoded(Setpoint),
    /// A delimiter completed a frame that did not decode; it was dropped.
    Malformed,
    /// A data byte arrived with the buffer full; the frame was dropped and
    /// the decoder waits for the next delimiter.
    Overflow,
}

/// What the accumulated bytes of a complete frame decode to.
pub open spec fn spec_decode_frame(payload: Seq<u8>) -> Option<Setpoint> {
    match spec_cobs_decode(payload) {
        Some(d) => spec_deserialize_setpoint(d),
        None => None,
    }
}

/// One step of the decoder: the new buffer contents and the event, given
/// the buffer contents and the consumed byte.
pub open spec fn spec_frame_step(buf: Seq<u8>, byte: u8) -> (Seq<u8>, FrameEvent) {
    if byte == FRAME_DELIMITER {
        (
            Seq::empty(),
            match spec_decode_frame(buf) {
                Some(s) => FrameEvent::Decoded(s),
                None => FrameEvent::Malformed,
            },
        )
    } else if buf.len() >= FRAME_BUFFER_CAPACITY {
        (Seq::empty(), FrameEvent::Overflow)
    } else {
        (buf.push(byte), FrameEvent::Pending)
    }
}

/// Buffer contents after consuming all of `bytes` starting from `buf`.
pub open spec fn spec_feed_buf(buf: Seq<u8>, bytes: Seq<u8>) -> Seq<u8>
    decreases bytes.len(),
{
    if bytes.len() == 0 {
        buf
    } else {
        spec_feed_buf(spec_frame_step(buf, bytes[0]).0, bytes.skip(1))
    }
}

/// Events produced while consuming all of `bytes` starting from `buf`, one
/// per byte.
pub open spec fn spec_feed_events(buf: Seq<u8>, bytes: Seq<u8>) -> Seq<FrameEvent>
    decreases bytes.len(),
{
    if bytes.len() == 0 {
        Seq::empty()
    } else {
        seq![spec_frame_step(buf, bytes[0]).1] + spec_feed_events(
            spec_frame_step(buf, bytes[0]).0,
            bytes.skip(1),
        )
    }
}

/// Consuming a stream produces exactly one event per byte.
pub proof fn lemma_feed_events_len(buf: Seq<u8>, bytes: Seq<u8>)
    ensures
        spec_feed_events(buf, bytes).len() == bytes.len(),
    decreases bytes.len(),
{
    if bytes.len() > 0 {
        lemma_feed_events_len(spec_frame_step(buf, bytes[0]).0, bytes.skip(1));
    }
}

/// Streaming reconstructor of delimited frames.  Owns the single bounded
/// accumulation buffer; the buffer is cleared on every frame boundary,
/// well formed or not.
pub struct FrameDecoder {
    buf: Vec<u8>,
}

impl FrameDecoder {
    /// The bytes of the current, incomplete frame.
    pub closed spec fn buffered(&self) -> Seq<u8> {
        self.buf@
    }

    /// The accumulation buffer never exceeds its fixed capacity.
    pub open spec fn wf(&self) -> bool {
        self.buffered().len() <= FRAME_BUFFER_CAPACITY
    }

    pub fn new() -> (d: Self)
        ensures
            d.wf(),
            d.buffered() == Seq::<u8>::empty(),
    {
        FrameDecoder { buf: Vec::new() }
    }

    /// Consume one byte of the inbound stream.
    ///
    /// A delimiter completes the buffered frame: the buffer is cleared and
    /// the frame either decodes to a setpoint or is reported malformed.  A
    /// data byte is accumulated, unless the buffer is already full, in
    /// which case the frame is dropped as overflown.
    pub fn push_byte(&mut self, byte: u8) -> (ev: FrameEvent)
        requires
            old(self).wf(),
        ensures
            final(self).wf(),
            final(self).buffered() == spec_frame_step(old(self).buffered(), byte).0,
            ev == spec_frame_step(old(self).buffered(), byte).1,
    {
        if byte == FRAME_DELIMITER {
            let ev = match cobs_decode(&self.buf) {
                Some(payload) => match deserialize_setpoint(&payload) {
                    Ok(sp) => FrameEvent::Decoded(sp),
                    Err(_) => FrameEvent::Malformed,
                },
                None => FrameEvent::Malformed,
            };
            self.buf.clear();
            ev
        } else if self.buf.len() >= FRAME_BUFFER_CAPACITY {
            self.buf.clear();
            FrameEvent::Overflow
        } else {
            self.buf.push(byte);
            FrameEvent::Pending
        }
    }

    /// Consume a whole chunk of the inbound stream, byte by byte, and
    /// return the event each byte produced.
    pub fn push_bytes(&mut self, bytes: &Vec<u8>) -> (events: Vec<FrameEvent>)
        requires
            old(self).wf(),
        ensures
            final(self).wf(),
            final(self).buffered() == spec_feed_buf(old(self).buffered(), bytes@),
            events@ == spec_feed_events(old(self).buffered(), bytes@),
    {
        let ghost buf0 = self.buffered();
        let mut events: Vec<FrameEvent> = Vec::new();
        let n: usize = bytes.len();
        let mut i: usize = 0;
        assert(bytes@.skip(0) =~= bytes@);
        while i < n
            invariant
                i <= n,
                n == bytes@.len(),
                self.wf(),
                spec_feed_buf(buf0, bytes@) == spec_feed_buf(self.buffered(), bytes@.skip(i as int)),
                spec_feed_events(buf0, bytes@) == events@ + spec_feed_events(
                    self.buffered(),
                    bytes@.skip(i as int),
                ),
            decreases n - i,
        {
            let ghost pre = self.buffered();
            let ghost rest = bytes@.skip(i as int);
            let ev = self.push_byte(bytes[i]);
            events.push(ev);
            proof {
                assert(rest[0] == bytes@[i as int]);
                assert(rest.skip(1) =~= bytes@.skip(i + 1));
                assert(spec_feed_events(pre, rest) == seq![ev] + spec_feed_events(
                    self.buffered(),
                    bytes@.skip(i + 1),
                ));
                assert(events@ + spec_feed_events(self.buffered(), bytes@.skip(i + 1)) =~= (
                events@.drop_last() + seq![ev] + spec_feed_events(
                    self.buffered(),
                    bytes@.skip(i + 1),
                )));
            }
            i = i + 1;
        }
        assert(bytes@.skip(n as int) =~= Seq::<u8>::empty());
        assert(events@ + Seq::<FrameEvent>::empty() =~= events@);
        events
    }
}

// --- properties of the byte stream ------------------------------------------

/// Consuming a concatenated stream is consuming its parts in order.
pub proof fn lemma_feed_split(buf: Seq<u8>, x: Seq<u8>, y: Seq<u8>)
    ensures
        spec_feed_buf(buf, x + y) == spec_feed_buf(spec_feed_buf(buf, x), y),
        spec_feed_events(buf, x + y) == spec_feed_events(buf, x) + spec_feed_events(
            spec_feed_buf(buf, x),
            y,
        ),
    decreases x.len(),
{
    if x.len() == 0 {
        assert(x + y =~= y);
        assert(spec_feed_events(buf, x) + spec_feed_events(spec_feed_buf(buf, x), y) =~= spec_feed_events(
            buf,
            y,
        ));
    } else {
        let b1 = spec_frame_step(buf, x[0]).0;
        let e1 = spec_frame_step(buf, x[0]).1;
        assert((x + y)[0] == x[0]);
        assert((x + y).skip(1) =~= x.skip(1) + y);
        lemma_feed_split(b1, x.skip(1), y);
        assert(seq![e1] + (spec_feed_events(b1, x.skip(1)) + spec_feed_events(
            spec_feed_buf(b1, x.skip(1)),
            y,
        )) =~= spec_feed_events(buf, x) + spec_feed_events(spec_feed_buf(buf, x), y));
    }
}

/// A stream without a delimiter never produces a setpoint, whatever the
/// decoder held when it began: at most one setpoint can come out of one
/// frame, on its final delimiter byte.
pub proof fn lemma_no_setpoint_without_delimiter(buf: Seq<u8>, bytes: Seq<u8>)
    requires
        forall|i: int| 0 <= i < bytes.len() ==> bytes[i] != FRAME_DELIMITER,
    ensures
        forall|i: int|
            0 <= i < spec_feed_events(buf, bytes).len() ==> !(#[trigger] spec_feed_events(
                buf,
                bytes,
            )[i] is Decoded),
    decreases bytes.len(),
{
    if bytes.len() > 0 {
        let b1 = spec_frame_step(buf, bytes[0]).0;
        let e1 = spec_frame_step(buf, bytes[0]).1;
        assert(!(e1 is Decoded));
        assert forall|i: int| 0 <= i < bytes.skip(1).len() implies bytes.skip(1)[i]
            != FRAME_DELIMITER by {
            assert(bytes.skip(1)[i] == bytes[i + 1]);
        }
        lemma_no_setpoint_without_delimiter(b1, bytes.skip(1));
        assert forall|i: int| 0 <= i < spec_feed_events(buf, bytes).len() implies !(
        #[trigger] spec_feed_events(buf, bytes)[i] is Decoded) by {
            if i > 0 {
                assert(spec_feed_events(buf, bytes)[i] == spec_feed_events(b1, bytes.skip(1))[i
                    - 1]);
            }
        }
    }
}

/// One frame on the wire — its body, which holds no delimiter, and its
/// final delimiter — never produces more than one setpoint, whatever the
/// decoder held when the frame began: only the frame's own delimiter can
/// complete one.
pub proof fn lemma_at_most_one_setpoint_per_frame(buf: Seq<u8>, body: Seq<u8>)
    requires
        forall|i: int| 0 <= i < body.len() ==> body[i] != FRAME_DELIMITER,
    ensures
        ({
            let frame = body + seq![FRAME_DELIMITER];
            let events = spec_feed_events(buf, frame);
            &&& events.len() == frame.len()
            &&& forall|i: int| 0 <= i < events.len() - 1 ==> !(#[trigger] events[i] is Decoded)
        }),
{
    let frame = body + seq![FRAME_DELIMITER];
    lemma_feed_events_len(buf, frame);
    lemma_feed_split(buf, body, seq![FRAME_DELIMITER]);
    lemma_no_setpoint_without_delimiter(buf, body);
    lemma_feed_events_len(buf, body);
    let events = spec_feed_events(buf, frame);
    assert forall|i: int| 0 <= i < events.len() - 1 implies !(#[trigger] events[i] is Decoded) by {
        assert(events[i] == spec_feed_events(buf, body)[i]);
    }
}

/// Delimiter-free bytes that fit the buffer's remaining room are simply
/// accumulated.
pub proof fn lemma_feed_accumulates(buf: Seq<u8>, bytes: Seq<u8>)
    requires
        forall|i: int| 0 <= i < bytes.len() ==> bytes[i] != FRAME_DELIMITER,
        buf.len() + bytes.len() <= FRAME_BUFFER_CAPACITY,
    ensures
        spec_feed_buf(buf, bytes) == buf + bytes,
    decreases bytes.len(),
{
    if bytes.len() == 0 {
        assert(buf + bytes =~= buf);
    } else {
        let b1 = spec_frame_step(buf, bytes[0]).0;
        assert(b1 == buf.push(bytes[0]));
        assert forall|i: int| 0 <= i < bytes.skip(1).len() implies bytes.skip(1)[i]
            != FRAME_DELIMITER by {
            assert(bytes.skip(1)[i] == bytes[i + 1]);
        }
        lemma_feed_accumulates(b1, bytes.skip(1));
        assert(buf.push(bytes[0]) + bytes.skip(1) =~= buf + bytes);
    }
}

/// Resynchronization: whatever garbage the decoder holds, a delimiter
/// clears it, and a following frame whose zero-free body fits the buffer
/// is decoded on its own delimiter — to its setpoint if well formed, to a
/// malformed-frame report otherwise.
pub proof fn lemma_decoder_resynchronizes(buf: Seq<u8>, payload: Seq<u8>)
    requires
        forall|i: int| 0 <= i < payload.len() ==> payload[i] != FRAME_DELIMITER,
        payload.len() <= FRAME_BUFFER_CAPACITY,
    ensures
        ({
            let stream = seq![FRAME_DELIMITER] + payload + seq![FRAME_DELIMITER];
            let events = spec_feed_events(buf, stream);
            &&& spec_feed_buf(buf, stream) == Seq::<u8>::empty()
            &&& events.len() == stream.len()
            &&& events.last() == (match spec_decode_frame(payload) {
                Some(s) => FrameEvent::Decoded(s),
                None => FrameEvent::Malformed,
            })
        }),
{
    let stream = seq![FRAME_DELIMITER] + payload + seq![FRAME_DELIMITER];
    let head = seq![FRAME_DELIMITER];
    let tail = seq![FRAME_DELIMITER];
    lemma_feed_events_len(buf, stream);
    assert(stream =~= head + (payload + tail));
    lemma_feed_split(buf, head, payload + tail);
    assert(spec_feed_buf(buf, head) == spec_feed_buf(spec_frame_step(buf, FRAME_DELIMITER).0, head.skip(1)));
    assert(head.skip(1) =~= Seq::<u8>::empty());
    assert(spec_feed_buf(buf, head) == Seq::<u8>::empty());
    lemma_feed_split(Seq::<u8>::empty(), payload, tail);
    lemma_feed_accumulates(Seq::<u8>::empty(), payload);
    assert(Seq::<u8>::empty() + payload =~= payload);
    let last_ev = spec_frame_step(payload, FRAME_DELIMITER).1;
    let cleared = spec_frame_step(payload, FRAME_DELIMITER).0;
    assert(tail.skip(1) =~= Seq::<u8>::empty());
    assert(spec_feed_events(cleared, Seq::<u8>::empty()) == Seq::<FrameEvent>::empty());
    assert(spec_feed_buf(cleared, Seq::<u8>::empty()) == cleared);
    assert(spec_feed_events(payload, tail) =~= seq![last_ev]);
    assert(spec_feed_buf(payload, tail) == Seq::<u8>::empty());
    let events = spec_feed_events(buf, stream);
    lemma_feed_events_len(buf, head);
    lemma_feed_events_len(Seq::<u8>::empty(), payload);
    assert(events =~= spec_feed_events(buf, head) + spec_feed_events(Seq::<u8>::empty(), payload)
        + seq![last_ev]);
    assert(events.last() == last_ev);
}

/// The inbound pipeline end to end: a setpoint framed by the host and fed
/// byte for byte to the decoder — behind any previous frame's delimiter —
/// always comes out as that setpoint, for every setpoint value.
pub proof fn lemma_setpoint_frame_decodes(buf: Seq<u8>, s: Setpoint)
    ensures
        ({
            let stream = seq![FRAME_DELIMITER] + spec_encode_frame(spec_serialize_setpoint(s));
            let events = spec_feed_events(buf, stream);
            &&& events.len() == stream.len()
            &&& events.last() == FrameEvent::Decoded(s)
        }),
{
    let body = spec_serialize_setpoint(s);
    let payload = spec_cobs_encode(body);
    lemma_encode_zero_free(body);
    lemma_encode_len_bound(body);
    assert(body.len() == SETPOINT_BYTES);
    lemma_cobs_round_trip(body);
    lemma_setpoint_round_trip(s);
    assert(spec_decode_frame(payload) == Some(s));
    assert(seq![FRAME_DELIMITER] + spec_encode_frame(body) =~= seq![FRAME_DELIMITER] + payload
        + seq![FRAME_DELIMITER]);
    lemma_decoder_resynchronizes(buf, payload);
}

/// The outbound pipeline end to end: decoding an encoded report frame
/// yields the report back, for every report value.
pub proof fn lemma_report_frame_round_trip(r: Report)
    ensures
        spec_decode_report_frame(spec_encode_frame(spec_serialize_report(r))) == Some(r),
{
    let body = spec_serialize_report(r);
    let frame = spec_encode_frame(body);
    assert(frame.last() == FRAME_DELIMITER);
    assert(frame.drop_last() =~= spec_cobs_encode(body));
    lemma_cobs_round_trip(body);
    lemma_report_round_trip(r);
}

// --- frame encoding ---------------------------------------------------------

/// A complete frame for `payload`: the zero-free transform followed by the
/// delimiter.
pub open spec fn spec_encode_frame(payload: Seq<u8>) -> Seq<u8> {
    spec_cobs_encode(payload) + seq![FRAME_DELIMITER]
}

/// Encode a report for transmission: serialize it, eliminate zero bytes,
/// append the delimiter.
pub fn encode_report_frame(r: &Report) -> (frame: Vec<u8>)
    ensures
        frame@ == spec_encode_frame(spec_serialize_report(*r)),
{
    let payload = serialize_report(r);
    let mut frame = cobs_encode(&payload);
    frame.push(FRAME_DELIMITER);
    assert(frame@ =~= spec_encode_frame(spec_serialize_report(*r)));
    frame
}

/// Encode a setpoint the same way; this is what the host does before its
/// bytes reach the frame decoder.
pub fn encode_setpoint_frame(s: &Setpoint) -> (frame: Vec<u8>)
    ensures
        frame@ == spec_encode_frame(spec_serialize_setpoint(*s)),
{
    let payload = serialize_setpoint(s);
    let mut frame = cobs_encode(&payload);
    frame.push(FRAME_DELIMITER);
    assert(frame@ =~= spec_encode_frame(spec_serialize_setpoint(*s)));
    frame
}

/// What a received report frame decodes to: strip the final delimiter,
/// reverse the zero elimination, deserialize.
pub open spec fn spec_decode_report_frame(frame: Seq<u8>) -> Option<Report> {
    if frame.len() == 0 || frame.last() != FRAME_DELIMITER {
        None
    } else {
        match spec_cobs_decode(frame.drop_last()) {
            Some(d) => spec_deserialize_report(d),
            None => None,
        }
    }
}

/// Decode a complete report frame, as the host does with the frames the
/// encoder produces.
pub fn decode_report_frame(frame: &Vec<u8>) -> (r: Option<Report>)
    ensures
        r == spec_decode_report_frame(frame@),
{
    let n: usize = frame.len();
    if n == 0 {
        return None;
    }
    if frame[n - 1] != FRAME_DELIMITER {
        return None;
    }
    let mut payload: Vec<u8> = Vec::new();
    let mut k: usize = 0;
    while k < n - 1
        invariant
            k <= n - 1,
            n == frame@.len(),
            n >= 1,
            payload@ == frame@.subrange(0, k as int),
        decreases n - 1 - k,
    {
        payload.push(frame[k]);
        assert(payload@ =~= frame@.subrange(0, k + 1));
        k = k + 1;
    }
    assert(payload@ =~= frame@.drop_last());
    match cobs_decode(&payload) {
        Some(d) => match deserialize_report(&d) {
            Ok(rep) => Some(rep),
            Err(_) => None,
        },
        None => None,
    }
}

} // verus!
