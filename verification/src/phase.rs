//! Phases of the heart ventricles and the phase clock.
//!
//! Systole is the ventricle contraction phase, diastole the relaxation
//! phase.  The phase clock maps a heart rate (cycles per minute), a systole
//! ratio (thousandths of the full cycle) and the current phase to the time,
//! in nanoseconds, to remain in that phase.

use vstd::prelude::*;

verus! {

use vstd::arithmetic::div_mod::lemma_fundamental_div_mod;

/// Nanoseconds in one minute; one cycle at 1 cycle/min lasts this long.
pub const NANOS_PER_MINUTE: u64 = 60_000_000_000;

/// The systole ratio is expressed in thousandths of the full cycle.
pub const RATIO_SCALE: u16 = 1000;

#[derive(Clone, Copy, Debug, PartialEq, Eq, Structural)]
pub enum CardiacPhase {
    Systole,
    Diastole,
}

/// Share of the full cycle spent in `phase`, in thousandths.
///
/// A ratio above the scale is clamped to it, so the share is always between
/// 0 and 1000 and the diastole share never goes negative.
pub open spec fn spec_phase_share(phase: CardiacPhase, systole_ratio_permille: u16) -> int {
    let clamped: int = if systole_ratio_permille > RATIO_SCALE {
        RATIO_SCALE as int
    } else {
        systole_ratio_permille as int
    };
    match phase {
        CardiacPhase::Systole => clamped,
        CardiacPhase::Diastole => RATIO_SCALE - clamped,
    }
}

/// Duration of one full cardiac cycle in nanoseconds, for a non-zero rate.
pub open spec fn spec_full_cycle_ns(heart_rate_cpm: u32) -> int
    recommends
        heart_rate_cpm > 0,
{
    NANOS_PER_MINUTE as int / heart_rate_cpm as int
}

/// Time to spend in `phase`, in nanoseconds.
///
/// A zero heart rate yields the maximum representable duration: the phase is
/// held forever rather than dividing by zero.
pub open spec fn spec_phase_duration(
    phase: CardiacPhase,
    heart_rate_cpm: u32,
    systole_ratio_permille: u16,
) -> u64 {
    if heart_rate_cpm == 0 {
        u64::MAX
    } else {
        (spec_full_cycle_ns(heart_rate_cpm) * spec_phase_share(phase, systole_ratio_permille)
            / RATIO_SCALE as int) as u64
    }
}

impl CardiacPhase {
    /// Deterministically switch to the other phase; there are no other
    /// transitions.
    pub fn switch(self) -> (next: Self)
        ensures
            next == self.spec_switch(),
    {
        match self {
            CardiacPhase::Systole => CardiacPhase::Diastole,
            CardiacPhase::Diastole => CardiacPhase::Systole,
        }
    }

    pub open spec fn spec_switch(self) -> Self {
        match self {
            CardiacPhase::Systole => CardiacPhase::Diastole,
            CardiacPhase::Diastole => CardiacPhase::Systole,
        }
    }

    /// Total time to spend in this phase for the given heart rate and
    /// systole ratio, in nanoseconds.
    pub fn get_total_phase_time(&self, heart_rate_cpm: u32, systole_ratio_permille: u16) -> (d:
        u64)
        ensures
            d == spec_phase_duration(*self, heart_rate_cpm, systole_ratio_permille),
    {
        if heart_rate_cpm == 0 {
            u64::MAX
        } else {
            let full_cycle_ns: u64 = NANOS_PER_MINUTE / (heart_rate_cpm as u64);
            let clamped: u16 = if systole_ratio_permille > RATIO_SCALE {
                RATIO_SCALE
            } else {
                systole_ratio_permille
            };
            let share: u64 = match self {
                CardiacPhase::Systole => clamped as u64,
                CardiacPhase::Diastole => (RATIO_SCALE - clamped) as u64,
            };
            assert(full_cycle_ns <= NANOS_PER_MINUTE as int) by {
                vstd::arithmetic::div_mod::lemma_div_nonincreasing(
                    NANOS_PER_MINUTE as int,
                    heart_rate_cpm as int,
                );
            }
            assert(full_cycle_ns * share <= NANOS_PER_MINUTE as int * RATIO_SCALE as int) by {
                vstd::arithmetic::mul::lemma_mul_upper_bound(
                    full_cycle_ns as int,
                    NANOS_PER_MINUTE as int,
                    share as int,
                    RATIO_SCALE as int,
                );
            }
            full_cycle_ns * share / (RATIO_SCALE as u64)
        }
    }
}

/// Switching phase twice returns to the original phase.
pub proof fn lemma_switch_involution(phase: CardiacPhase)
    ensures
        phase.spec_switch().spec_switch() == phase,
{
}

/// A zero heart rate yields the maximum representable duration for both
/// phases.
pub proof fn lemma_zero_rate_holds_phase(phase: CardiacPhase, systole_ratio_permille: u16)
    ensures
        spec_phase_duration(phase, 0, systole_ratio_permille) == u64::MAX,
{
}

/// For a positive heart rate and a systole ratio strictly inside (0, 1), the
/// systole and diastole durations partition the full cycle: their sum equals
/// the full cycle duration up to one nanosecond of rounding.
pub proof fn lemma_phase_durations_partition_cycle(heart_rate_cpm: u32, systole_ratio_permille: u16)
    requires
        heart_rate_cpm > 0,
        0 < systole_ratio_permille < RATIO_SCALE,
    ensures
        spec_phase_duration(CardiacPhase::Systole, heart_rate_cpm, systole_ratio_permille)
            + spec_phase_duration(CardiacPhase::Diastole, heart_rate_cpm, systole_ratio_permille)
            <= spec_full_cycle_ns(heart_rate_cpm),
        spec_full_cycle_ns(heart_rate_cpm) - (spec_phase_duration(
            CardiacPhase::Systole,
            heart_rate_cpm,
            systole_ratio_permille,
        ) + spec_phase_duration(CardiacPhase::Diastole, heart_rate_cpm, systole_ratio_permille))
            <= 1,
{
    let fc = spec_full_cycle_ns(heart_rate_cpm);
    let r = systole_ratio_permille as int;
    let scale = RATIO_SCALE as int;
    let a = fc * r;
    let b = fc * (scale - r);
    assert(0 <= fc <= NANOS_PER_MINUTE as int) by {
        vstd::arithmetic::div_mod::lemma_div_nonincreasing(
            NANOS_PER_MINUTE as int,
            heart_rate_cpm as int,
        );
        vstd::arithmetic::div_mod::lemma_div_pos_is_pos(
            NANOS_PER_MINUTE as int,
            heart_rate_cpm as int,
        );
    }
    assert(a + b == fc * scale) by (nonlinear_arith)
        requires
            a == fc * r,
            b == fc * (scale - r),
    ;
    assert(0 <= a && 0 <= b && a <= NANOS_PER_MINUTE as int * RATIO_SCALE as int) by (
    nonlinear_arith)
        requires
            a == fc * r,
            b == fc * (scale - r),
            0 <= fc <= NANOS_PER_MINUTE as int,
            0 <= r <= scale,
            scale == RATIO_SCALE as int,
    ;
    lemma_fundamental_div_mod(a, scale);
    lemma_fundamental_div_mod(b, scale);
    assert(0 <= a % scale < scale);
    assert(0 <= b % scale < scale);
    // a % scale + b % scale is a multiple of scale below 2 * scale, hence 0
    // or scale; the quotients therefore sum to fc or fc - 1.
    assert(scale * (a / scale) + scale * (b / scale) + (a % scale + b % scale) == scale * fc)
        by (nonlinear_arith)
        requires
            a + b == fc * scale,
            a == scale * (a / scale) + a % scale,
            b == scale * (b / scale) + b % scale,
    ;
    assert(a % scale + b % scale == scale * (fc - a / scale - b / scale)) by (nonlinear_arith)
        requires
            scale * (a / scale) + scale * (b / scale) + (a % scale + b % scale) == scale * fc,
    ;
    let k = fc - a / scale - b / scale;
    assert(0 <= scale * k < 2 * scale);
    assert(0 <= k <= 1) by (nonlinear_arith)
        requires
            0 <= scale * k < 2 * scale,
            scale == 1000,
    ;
    assert(a / scale + b / scale == fc - k);
    assert(spec_phase_duration(CardiacPhase::Systole, heart_rate_cpm, systole_ratio_permille)
        == a / scale);
    assert(spec_phase_duration(CardiacPhase::Diastole, heart_rate_cpm, systole_ratio_permille)
        == b / scale);
}

} // verus!
