//! Fixed-layout binary wire format for setpoints and reports.
//!
//! Every message has a compile-time-known size.  Multi-byte integers are
//! little endian.  Optional sub-setpoints are encoded as a one-byte presence
//! tag followed by the sub-setpoint's field block; an absent block is
//! zero-filled so the layout never shifts.  Serialization and
//! deserialization are proved inverse to each other for every value.

use vstd::prelude::*;

verus! {

use vstd::arithmetic::div_mod::lemma_fundamental_div_mod;
use crate::messages::{AppState, HeartControllerSetpoint, MockloopSetpoint, Report, Setpoint};

/// Size of a serialized `Setpoint` before framing.
pub const SETPOINT_BYTES: usize = 29;

/// Size of a serialized `Report` before framing.
pub const REPORT_BYTES: usize = 52;

/// Why a payload failed to deserialize.
#[derive(Clone, Copy, Debug, PartialEq, Eq, Structural)]
pub enum WireError {
    /// The payload does not have the exact size of the message.
    Length,
    /// A presence tag holds a value other than zero or one.
    Tag,
    /// The application-state byte does not name a known mode.
    Mode,
}

// --- little-endian integer encodings ---------------------------------------

pub open spec fn spec_u16_le(x: u16) -> Seq<u8> {
    seq![(x % 256) as u8, (x / 256) as u8]
}

pub open spec fn spec_u32_le(x: u32) -> Seq<u8> {
    spec_u16_le((x % 65536) as u16) + spec_u16_le((x / 65536) as u16)
}

pub open spec fn spec_u64_le(x: u64) -> Seq<u8> {
    spec_u32_le((x % 0x1_0000_0000) as u32) + spec_u32_le((x / 0x1_0000_0000) as u32)
}

/// The u16 encoded little endian in the two bytes of `s`.
pub open spec fn spec_u16_of(s: Seq<u8>) -> u16
    recommends
        s.len() == 2,
{
    (s[0] + s[1] * 256) as u16
}

/// The u32 encoded little endian in the four bytes of `s`.
pub open spec fn spec_u32_of(s: Seq<u8>) -> u32
    recommends
        s.len() == 4,
{
    (spec_u16_of(s.subrange(0, 2)) + spec_u16_of(s.subrange(2, 4)) * 65536) as u32
}

/// The u64 encoded little endian in the eight bytes of `s`.
pub open spec fn spec_u64_of(s: Seq<u8>) -> u64
    recommends
        s.len() == 8,
{
    (spec_u32_of(s.subrange(0, 4)) + spec_u32_of(s.subrange(4, 8)) * 0x1_0000_0000) as u64
}

/// Reading back the two little-endian bytes of `x` yields `x`.
pub proof fn lemma_u16_le_round_trip(x: u16)
    ensures
        spec_u16_of(spec_u16_le(x)) == x,
{
    lemma_fundamental_div_mod(x as int, 256);
}

/// Reading back the four little-endian bytes of `x` yields `x`.
pub proof fn lemma_u32_le_round_trip(x: u32)
    ensures
        spec_u32_of(spec_u32_le(x)) == x,
{
    let lo = (x % 65536) as u16;
    let hi = (x / 65536) as u16;
    assert(spec_u32_le(x).subrange(0, 2) =~= spec_u16_le(lo));
    assert(spec_u32_le(x).subrange(2, 4) =~= spec_u16_le(hi));
    lemma_u16_le_round_trip(lo);
    lemma_u16_le_round_trip(hi);
    lemma_fundamental_div_mod(x as int, 65536);
}

/// Reading back the eight little-endian bytes of `x` yields `x`.
pub proof fn lemma_u64_le_round_trip(x: u64)
    ensures
        spec_u64_of(spec_u64_le(x)) == x,
{
    let lo = (x % 0x1_0000_0000) as u32;
    let hi = (x / 0x1_0000_0000) as u32;
    assert(spec_u64_le(x).subrange(0, 4) =~= spec_u32_le(lo));
    assert(spec_u64_le(x).subrange(4, 8) =~= spec_u32_le(hi));
    lemma_u32_le_round_trip(lo);
    lemma_u32_le_round_trip(hi);
    lemma_fundamental_div_mod(x as int, 0x1_0000_0000);
}

// --- exec helpers ----------------------------------------------------------

fn push_u16_le(out: &mut Vec<u8>, x: u16)
    ensures
        final(out)@ == old(out)@ + spec_u16_le(x),
{
    out.push((x % 256) as u8);
    out.push((x / 256) as u8);
    assert(out@ =~= old(out)@ + spec_u16_le(x));
}

fn push_u32_le(out: &mut Vec<u8>, x: u32)
    ensures
        final(out)@ == old(out)@ + spec_u32_le(x),
{
    push_u16_le(out, (x % 65536) as u16);
    push_u16_le(out, (x / 65536) as u16);
    assert(out@ =~= old(out)@ + spec_u32_le(x));
}

fn push_u64_le(out: &mut Vec<u8>, x: u64)
    ensures
        final(out)@ == old(out)@ + spec_u64_le(x),
{
    push_u32_le(out, (x % 0x1_0000_0000) as u32);
    push_u32_le(out, (x / 0x1_0000_0000) as u32);
    assert(out@ =~= old(out)@ + spec_u64_le(x));
}

fn push_zeros(out: &mut Vec<u8>, n: usize)
    ensures
        final(out)@ == old(out)@ + Seq::new(n as nat, |j: int| 0u8),
{
    let mut k: usize = 0;
    while k < n
        invariant
            k <= n,
            out@ == old(out)@ + Seq::new(k as nat, |j: int| 0u8),
        decreases n - k,
    {
        out.push(0);
        assert(out@ =~= old(out)@ + Seq::new((k + 1) as nat, |j: int| 0u8));
        k = k + 1;
    }
}

fn read_u16_at(b: &Vec<u8>, i: usize) -> (x: u16)
    requires
        i + 2 <= b@.len(),
    ensures
        x == spec_u16_of(b@.subrange(i as int, i as int + 2)),
{
    // Bind the length as a machine word so the index arithmetic below is
    // known to stay within usize.
    let _n: usize = b.len();
    let lo = b[i] as u16;
    let hi = b[i + 1] as u16;
    assert(b@.subrange(i as int, i as int + 2)[0] == b@[i as int]);
    assert(b@.subrange(i as int, i as int + 2)[1] == b@[i as int + 1]);
    lo + hi * 256
}

fn read_u32_at(b: &Vec<u8>, i: usize) -> (x: u32)
    requires
        i + 4 <= b@.len(),
    ensures
        x == spec_u32_of(b@.subrange(i as int, i as int + 4)),
{
    let _n: usize = b.len();
    let lo = read_u16_at(b, i) as u32;
    let hi = read_u16_at(b, i + 2) as u32;
    let w = Ghost(b@.subrange(i as int, i as int + 4));
    assert(w@.subrange(0, 2) =~= b@.subrange(i as int, i as int + 2));
    assert(w@.subrange(2, 4) =~= b@.subrange(i as int + 2, i as int + 4));
    lo + hi * 65536
}

fn read_u64_at(b: &Vec<u8>, i: usize) -> (x: u64)
    requires
        i + 8 <= b@.len(),
    ensures
        x == spec_u64_of(b@.subrange(i as int, i as int + 8)),
{
    let _n: usize = b.len();
    let lo = read_u32_at(b, i) as u64;
    let hi = read_u32_at(b, i + 4) as u64;
    let w = Ghost(b@.subrange(i as int, i as int + 8));
    assert(w@.subrange(0, 4) =~= b@.subrange(i as int, i as int + 4));
    assert(w@.subrange(4, 8) =~= b@.subrange(i as int + 4, i as int + 8));
    lo + hi * 0x1_0000_0000
}

// --- setpoint layout --------------------------------------------------------

pub open spec fn spec_bool_byte(b: bool) -> u8 {
    if b {
        1u8
    } else {
        0u8
    }
}

pub open spec fn spec_hcs_bytes(h: HeartControllerSetpoint) -> Seq<u8> {
    spec_u32_le(h.heart_rate_cpm) + spec_u16_le(h.systole_ratio_permille) + spec_u32_le(
        h.pressure_mbar,
    )
}

pub open spec fn spec_opt_hcs_bytes(o: Option<HeartControllerSetpoint>) -> Seq<u8> {
    match o {
        Some(h) => seq![1u8] + spec_hcs_bytes(h),
        None => seq![0u8] + Seq::new(10, |j: int| 0u8),
    }
}

pub open spec fn spec_mockloop_bytes(m: MockloopSetpoint) -> Seq<u8> {
    spec_u32_le(m.systemic_afterload_compliance) + spec_u32_le(m.pulmonary_afterload_compliance)
        + spec_u32_le(m.systemic_resistance) + spec_u32_le(m.pulmonary_resistance)
}

pub open spec fn spec_opt_mockloop_bytes(o: Option<MockloopSetpoint>) -> Seq<u8> {
    match o {
        Some(m) => seq![1u8] + spec_mockloop_bytes(m),
        None => seq![0u8] + Seq::new(16, |j: int| 0u8),
    }
}

/// Byte layout of a setpoint: enable flag, tagged heart-controller block,
/// tagged mockloop block.
pub open spec fn spec_serialize_setpoint(s: Setpoint) -> Seq<u8> {
    seq![spec_bool_byte(s.enable)] + spec_opt_hcs_bytes(s.heart_controller_setpoint)
        + spec_opt_mockloop_bytes(s.mockloop_setpoint)
}

/// Reverse of `spec_serialize_setpoint`; `None` when the size is wrong or a
/// tag byte is out of range.
pub open spec fn spec_deserialize_setpoint(b: Seq<u8>) -> Option<Setpoint> {
    if b.len() != SETPOINT_BYTES {
        None
    } else if b[0] > 1 || b[1] > 1 || b[12] > 1 {
        None
    } else {
        Some(
            Setpoint {
                enable: b[0] == 1,
                heart_controller_setpoint: if b[1] == 1 {
                    Some(
                        HeartControllerSetpoint {
                            heart_rate_cpm: spec_u32_of(b.subrange(2, 6)),
                            systole_ratio_permille: spec_u16_of(b.subrange(6, 8)),
                            pressure_mbar: spec_u32_of(b.subrange(8, 12)),
                        },
                    )
                } else {
                    None
                },
                mockloop_setpoint: if b[12] == 1 {
                    Some(
                        MockloopSetpoint {
                            systemic_afterload_compliance: spec_u32_of(b.subrange(13, 17)),
                            pulmonary_afterload_compliance: spec_u32_of(b.subrange(17, 21)),
                            systemic_resistance: spec_u32_of(b.subrange(21, 25)),
                            pulmonary_resistance: spec_u32_of(b.subrange(25, 29)),
                        },
                    )
                } else {
                    None
                },
            },
        )
    }
}

/// Deserializing a serialized setpoint yields the setpoint back, for every
/// setpoint value.
pub proof fn lemma_setpoint_round_trip(s: Setpoint)
    ensures
        spec_deserialize_setpoint(spec_serialize_setpoint(s)) == Some(s),
{
    let b = spec_serialize_setpoint(s);
    assert(b.len() == SETPOINT_BYTES);
    match s.heart_controller_setpoint {
        Some(h) => {
            assert(b[1] == 1);
            assert(b.subrange(2, 6) =~= spec_u32_le(h.heart_rate_cpm));
            assert(b.subrange(6, 8) =~= spec_u16_le(h.systole_ratio_permille));
            assert(b.subrange(8, 12) =~= spec_u32_le(h.pressure_mbar));
            lemma_u32_le_round_trip(h.heart_rate_cpm);
            lemma_u16_le_round_trip(h.systole_ratio_permille);
            lemma_u32_le_round_trip(h.pressure_mbar);
        },
        None => {
            assert(b[1] == 0);
        },
    }
    match s.mockloop_setpoint {
        Some(m) => {
            assert(b[12] == 1);
            assert(b.subrange(13, 17) =~= spec_u32_le(m.systemic_afterload_compliance));
            assert(b.subrange(17, 21) =~= spec_u32_le(m.pulmonary_afterload_compliance));
            assert(b.subrange(21, 25) =~= spec_u32_le(m.systemic_resistance));
            assert(b.subrange(25, 29) =~= spec_u32_le(m.pulmonary_resistance));
            lemma_u32_le_round_trip(m.systemic_afterload_compliance);
            lemma_u32_le_round_trip(m.pulmonary_afterload_compliance);
            lemma_u32_le_round_trip(m.systemic_resistance);
            lemma_u32_le_round_trip(m.pulmonary_resistance);
        },
        None => {
            assert(b[12] == 0);
        },
    }
}

/// Serialize a setpoint into its fixed 29-byte layout.
pub fn serialize_setpoint(s: &Setpoint) -> (out: Vec<u8>)
    ensures
        out@ == spec_serialize_setpoint(*s),
        out@.len() == SETPOINT_BYTES,
{
    let mut out: Vec<u8> = Vec::new();
    out.push(if s.enable {
        1
    } else {
        0
    });
    match s.heart_controller_setpoint {
        Some(h) => {
            out.push(1);
            push_u32_le(&mut out, h.heart_rate_cpm);
            push_u16_le(&mut out, h.systole_ratio_permille);
            push_u32_le(&mut out, h.pressure_mbar);
        },
        None => {
            out.push(0);
            push_zeros(&mut out, 10);
        },
    }
    match s.mockloop_setpoint {
        Some(m) => {
            out.push(1);
            push_u32_le(&mut out, m.systemic_afterload_compliance);
            push_u32_le(&mut out, m.pulmonary_afterload_compliance);
            push_u32_le(&mut out, m.systemic_resistance);
            push_u32_le(&mut out, m.pulmonary_resistance);
        },
        None => {
            out.push(0);
            push_zeros(&mut out, 16);
        },
    }
    assert(out@ =~= spec_serialize_setpoint(*s));
    out
}

/// Deserialize a 29-byte payload into a setpoint.
///
/// Succeeds exactly when the payload parses; the error names the first check
/// that failed: the size, then the presence tags.
pub fn deserialize_setpoint(b: &Vec<u8>) -> (r: Result<Setpoint, WireError>)
    ensures
        (r is Ok) <==> (spec_deserialize_setpoint(b@) is Some),
        r matches Ok(s) ==> spec_deserialize_setpoint(b@) == Some(s),
        r matches Err(e) ==> (e == WireError::Length <==> b@.len() != SETPOINT_BYTES),
        r matches Err(e) ==> (e == WireError::Tag <==> b@.len() == SETPOINT_BYTES),
{
    if b.len() != SETPOINT_BYTES {
        return Err(WireError::Length);
    }
    let enable_byte = b[0];
    let hcs_tag = b[1];
    let ml_tag = b[12];
    if enable_byte > 1 || hcs_tag > 1 || ml_tag > 1 {
        return Err(WireError::Tag);
    }
    let heart_controller_setpoint = if hcs_tag == 1 {
        Some(
            HeartControllerSetpoint {
                heart_rate_cpm: read_u32_at(b, 2),
                systole_ratio_permille: read_u16_at(b, 6),
                pressure_mbar: read_u32_at(b, 8),
            },
        )
    } else {
        None
    };
    let mockloop_setpoint = if ml_tag == 1 {
        Some(
            MockloopSetpoint {
                systemic_afterload_compliance: read_u32_at(b, 13),
                pulmonary_afterload_compliance: read_u32_at(b, 17),
                systemic_resistance: read_u32_at(b, 21),
                pulmonary_resistance: read_u32_at(b, 25),
            },
        )
    } else {
        None
    };
    Ok(Setpoint { enable: enable_byte == 1, heart_controller_setpoint, mockloop_setpoint })
}

// --- report layout ----------------------------------------------------------

pub open spec fn spec_app_state_byte(a: AppState) -> u8 {
    match a {
        AppState::StandBy => 0u8,
        AppState::Running => 1u8,
        AppState::Fault => 2u8,
    }
}

pub open spec fn spec_app_state_of_byte(b: u8) -> Option<AppState> {
    if b == 0 {
        Some(AppState::StandBy)
    } else if b == 1 {
        Some(AppState::Running)
    } else if b == 2 {
        Some(AppState::Fault)
    } else {
        None
    }
}

pub open spec fn spec_measurements_bytes(m: crate::messages::Measurements) -> Seq<u8> {
    spec_u64_le(m.timestamp_us) + spec_u16_le(m.regulator_actual_pressure_mmhg) + spec_u16_le(
        m.systemic_flow_lpm,
    ) + spec_u16_le(m.pulmonary_flow_lpm) + spec_u16_le(m.systemic_preload_pressure_mmhg)
        + spec_u16_le(m.systemic_afterload_pressure_mmhg) + spec_u16_le(
        m.pulmonary_preload_pressure_mmhg,
    ) + spec_u16_le(m.pulmonary_afterload_pressure_mmhg)
}

/// Byte layout of a report: application mode, measurement block, setpoint
/// block.
pub open spec fn spec_serialize_report(r: Report) -> Seq<u8> {
    seq![spec_app_state_byte(r.app_state)] + spec_measurements_bytes(r.measurements)
        + spec_serialize_setpoint(r.setpoint)
}

/// Reverse of `spec_serialize_report`.
pub open spec fn spec_deserialize_report(b: Seq<u8>) -> Option<Report> {
    if b.len() != REPORT_BYTES {
        None
    } else {
        match spec_app_state_of_byte(b[0]) {
            None => None,
            Some(app_state) => match spec_deserialize_setpoint(b.subrange(23, REPORT_BYTES as int)) {
                None => None,
                Some(setpoint) => Some(
                    Report {
                        app_state,
                        measurements: crate::messages::Measurements {
                            timestamp_us: spec_u64_of(b.subrange(1, 9)),
                            regulator_actual_pressure_mmhg: spec_u16_of(b.subrange(9, 11)),
                            systemic_flow_lpm: spec_u16_of(b.subrange(11, 13)),
                            pulmonary_flow_lpm: spec_u16_of(b.subrange(13, 15)),
                            systemic_preload_pressure_mmhg: spec_u16_of(b.subrange(15, 17)),
                            systemic_afterload_pressure_mmhg: spec_u16_of(b.subrange(17, 19)),
                            pulmonary_preload_pressure_mmhg: spec_u16_of(b.subrange(19, 21)),
                            pulmonary_afterload_pressure_mmhg: spec_u16_of(b.subrange(21, 23)),
                        },
                        setpoint,
                    },
                ),
            },
        }
    }
}

/// Deserializing a serialized report yields the report back, for every
/// report value.
pub proof fn lemma_report_round_trip(r: Report)
    ensures
        spec_deserialize_report(spec_serialize_report(r)) == Some(r),
{
    let b = spec_serialize_report(r);
    assert(b.len() == REPORT_BYTES);
    let m = r.measurements;
    assert(b.subrange(1, 9) =~= spec_u64_le(m.timestamp_us));
    assert(b.subrange(9, 11) =~= spec_u16_le(m.regulator_actual_pressure_mmhg));
    assert(b.subrange(11, 13) =~= spec_u16_le(m.systemic_flow_lpm));
    assert(b.subrange(13, 15) =~= spec_u16_le(m.pulmonary_flow_lpm));
    assert(b.subrange(15, 17) =~= spec_u16_le(m.systemic_preload_pressure_mmhg));
    assert(b.subrange(17, 19) =~= spec_u16_le(m.systemic_afterload_pressure_mmhg));
    assert(b.subrange(19, 21) =~= spec_u16_le(m.pulmonary_preload_pressure_mmhg));
    assert(b.subrange(21, 23) =~= spec_u16_le(m.pulmonary_afterload_pressure_mmhg));
    lemma_u64_le_round_trip(m.timestamp_us);
    lemma_u16_le_round_trip(m.regulator_actual_pressure_mmhg);
    lemma_u16_le_round_trip(m.systemic_flow_lpm);
    lemma_u16_le_round_trip(m.pulmonary_flow_lpm);
    lemma_u16_le_round_trip(m.systemic_preload_pressure_mmhg);
    lemma_u16_le_round_trip(m.systemic_afterload_pressure_mmhg);
    lemma_u16_le_round_trip(m.pulmonary_preload_pressure_mmhg);
    lemma_u16_le_round_trip(m.pulmonary_afterload_pressure_mmhg);
    assert(b.subrange(23, REPORT_BYTES as int) =~= spec_serialize_setpoint(r.setpoint));
    lemma_setpoint_round_trip(r.setpoint);
}

/// Serialize a report into its fixed 52-byte layout.
pub fn serialize_report(r: &Report) -> (out: Vec<u8>)
    ensures
        out@ == spec_serialize_report(*r),
        out@.len() == REPORT_BYTES,
{
    let mut out: Vec<u8> = Vec::new();
    out.push(match r.app_state {
        AppState::StandBy => 0,
        AppState::Running => 1,
        AppState::Fault => 2,
    });
    let m = r.measurements;
    push_u64_le(&mut out, m.timestamp_us);
    push_u16_le(&mut out, m.regulator_actual_pressure_mmhg);
    push_u16_le(&mut out, m.systemic_flow_lpm);
    push_u16_le(&mut out, m.pulmonary_flow_lpm);
    push_u16_le(&mut out, m.systemic_preload_pressure_mmhg);
    push_u16_le(&mut out, m.systemic_afterload_pressure_mmhg);
    push_u16_le(&mut out, m.pulmonary_preload_pressure_mmhg);
    push_u16_le(&mut out, m.pulmonary_afterload_pressure_mmhg);
    let mut sp = serialize_setpoint(&r.setpoint);
    out.append(&mut sp);
    assert(out@ =~= spec_serialize_report(*r));
    out
}

/// Deserialize a 52-byte payload into a report.
///
/// Succeeds exactly when the payload parses; the error names the first check
/// that failed: the size, then the mode byte, then the setpoint block.
pub fn deserialize_report(b: &Vec<u8>) -> (r: Result<Report, WireError>)
    ensures
        (r is Ok) <==> (spec_deserialize_report(b@) is Some),
        r matches Ok(rep) ==> spec_deserialize_report(b@) == Some(rep),
        r matches Err(e) ==> (e == WireError::Length <==> b@.len() != REPORT_BYTES),
        r matches Err(e) ==> (e == WireError::Mode <==> b@.len() == REPORT_BYTES
            && spec_app_state_of_byte(b@[0]) is None),
        r matches Err(e) ==> (e == WireError::Tag <==> b@.len() == REPORT_BYTES
            && spec_app_state_of_byte(b@[0]) is Some && spec_deserialize_setpoint(
            b@.subrange(23, REPORT_BYTES as int),
        ) is None),
{
    if b.len() != REPORT_BYTES {
        return Err(WireError::Length);
    }
    let app_state = match b[0] {
        0 => AppState::StandBy,
        1 => AppState::Running,
        2 => AppState::Fault,
        _ => {
            return Err(WireError::Mode);
        },
    };
    let mut sp_bytes: Vec<u8> = Vec::new();
    let mut k: usize = 23;
    while k < REPORT_BYTES
        invariant
            23 <= k <= REPORT_BYTES,
            b@.len() == REPORT_BYTES,
            sp_bytes@ == b@.subrange(23, k as int),
        decreases REPORT_BYTES - k,
    {
        sp_bytes.push(b[k]);
        assert(sp_bytes@ =~= b@.subrange(23, k + 1));
        k = k + 1;
    }
    let setpoint = match deserialize_setpoint(&sp_bytes) {
        Ok(s) => s,
        Err(_) => {
            return Err(WireError::Tag);
        },
    };
    Ok(
        Report {
            app_state,
            measurements: crate::messages::Measurements {
                timestamp_us: read_u64_at(b, 1),
                regulator_actual_pressure_mmhg: read_u16_at(b, 9),
                systemic_flow_lpm: read_u16_at(b, 11),
                pulmonary_flow_lpm: read_u16_at(b, 13),
                systemic_preload_pressure_mmhg: read_u16_at(b, 15),
                systemic_afterload_pressure_mmhg: read_u16_at(b, 17),
                pulmonary_preload_pressure_mmhg: read_u16_at(b, 19),
                pulmonary_afterload_pressure_mmhg: read_u16_at(b, 21),
            },
            setpoint,
        },
    )
}

} // verus!
