//! Conversion between physical pressures and the codes written to the
//! digital-to-analog converters that drive the pressure regulators.
//!
//! The regulator accepts 0 to 2 bar (0 to 2000 millibar), mapped linearly
//! onto the 13-bit code range 0 to 8191; pressures beyond the range are
//! clamped.  The conversion is stateless.

use vstd::prelude::*;

verus! {

/// Highest pressure the regulator accepts, in millibar.
pub const REGULATOR_MAX_PRESSURE_MBAR: u32 = 2000;

/// Highest DAC code, the top of the 13-bit range.
pub const REGULATOR_MAX_VALUE: u32 = 8191;

/// The regulator outputs addressed by the DAC task.
#[derive(Clone, Copy, Debug, PartialEq, Eq, Structural)]
pub enum DacId {
    /// The heart's pneumatic pressure regulator.
    Heart,
    /// The systemic compliance chamber regulator.
    Systemic,
    /// The pulmonary compliance chamber regulator.
    Pulmonary,
}

/// A pressure expressed as the DAC code that effects it.
#[derive(Clone, Copy, Debug, PartialEq, Eq, Structural)]
pub struct RegulatorSetpoint {
    pub pressure: u16,
}

/// The code for a pressure: linear over the regulator's range, clamped at
/// its top.
pub open spec fn spec_code_of_pressure(pressure_mbar: u32) -> u16 {
    if pressure_mbar >= REGULATOR_MAX_PRESSURE_MBAR {
        REGULATOR_MAX_VALUE as u16
    } else {
        (pressure_mbar as int * REGULATOR_MAX_VALUE as int
            / REGULATOR_MAX_PRESSURE_MBAR as int) as u16
    }
}

impl RegulatorSetpoint {
    /// Convert a regulator pressure into a DAC setpoint.
    pub fn from_pressure(pressure_mbar: u32) -> (s: Self)
        ensures
            s.pressure == spec_code_of_pressure(pressure_mbar),
    {
        if pressure_mbar >= REGULATOR_MAX_PRESSURE_MBAR {
            RegulatorSetpoint { pressure: REGULATOR_MAX_VALUE as u16 }
        } else {
            let p: u64 = pressure_mbar as u64;
            assert(p * 8191 <= 1999 * 8191);
            let scaled: u64 = p * 8191 / 2000;
            assert(scaled <= 1999 * 8191 / 2000) by {
                vstd::arithmetic::div_mod::lemma_div_is_ordered(
                    (p * 8191) as int,
                    1999int * 8191,
                    2000int,
                );
            }
            RegulatorSetpoint { pressure: scaled as u16 }
        }
    }

    /// Convert a DAC setpoint back into a regulator pressure in millibar.
    pub fn to_pressure(self) -> (pressure_mbar: u32)
        ensures
            pressure_mbar == self.pressure as int * REGULATOR_MAX_PRESSURE_MBAR as int
                / REGULATOR_MAX_VALUE as int,
    {
        (self.pressure as u32) * REGULATOR_MAX_PRESSURE_MBAR / REGULATOR_MAX_VALUE
    }
}

} // verus!
