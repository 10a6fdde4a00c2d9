//! Per-iteration logic of the mock-circulatory-loop controller, which sets
//! the compliance chamber pressures (flow resistance control is not
//! implemented yet).

use vstd::prelude::*;

verus! {

use crate::messages::Setpoint;

/// A compliance target converted into a pressure for the compliance
/// chamber's regulator.
#[derive(Clone, Copy, Debug, PartialEq, Eq, Structural)]
pub struct ComplianceSetpoint {
    pub pressure_mbar: u32,
}

impl ComplianceSetpoint {
    /// Convert a raw compliance value into a regulator pressure.  The real
    /// transfer function is still to be determined; until then the raw
    /// value is taken as millibar directly.
    pub fn from_raw_compliance(compliance: u32) -> (s: Self)
        ensures
            s.pressure_mbar == compliance,
    {
        ComplianceSetpoint { pressure_mbar: compliance }
    }
}

/// A resistance target converted into a valve opening.
#[derive(Clone, Copy, Debug, PartialEq, Eq, Structural)]
pub struct ResistanceSetpoint {
    pub valve_open_percentage: u32,
}

impl ResistanceSetpoint {
    /// Convert a raw resistance value into a valve opening.  The real
    /// transfer function is still to be determined; until then the raw
    /// value is taken as the opening directly.
    pub fn from_raw_resistance(resistance: u32) -> (s: Self)
        ensures
            s.valve_open_percentage == resistance,
    {
        ResistanceSetpoint { valve_open_percentage: resistance }
    }
}

/// Pressures to publish to the two compliance chamber regulators.
#[derive(Clone, Copy, Debug, PartialEq, Eq, Structural)]
pub struct MockloopActuation {
    pub systemic_pressure_mbar: u32,
    pub pulmonary_pressure_mbar: u32,
}

/// One iteration of the mockloop controller.
///
/// With the mockloop sub-setpoint present, both chamber regulators are
/// driven from the converted systemic compliance value — both from the
/// systemic one, mirroring the controller as built, where the pulmonary
/// value may well have been intended for the second chamber.  With it
/// absent the loop is disabled and both chambers go to the safe zero
/// pressure.
pub fn mockloop_step(setpoint: &Setpoint) -> (a: MockloopActuation)
    ensures
        setpoint.mockloop_setpoint matches Some(m) ==> ({
            &&& a.systemic_pressure_mbar == m.systemic_afterload_compliance
            &&& a.pulmonary_pressure_mbar == m.systemic_afterload_compliance
        }),
        setpoint.mockloop_setpoint is None ==> a == (MockloopActuation {
            systemic_pressure_mbar: 0,
            pulmonary_pressure_mbar: 0,
        }),
{
    match setpoint.mockloop_setpoint {
        Some(mockloop_setpoint) => {
            let systemic = ComplianceSetpoint::from_raw_compliance(
                mockloop_setpoint.systemic_afterload_compliance,
            );
            let pulmonary = ComplianceSetpoint::from_raw_compliance(
                mockloop_setpoint.systemic_afterload_compliance,
            );
            MockloopActuation {
                systemic_pressure_mbar: systemic.pressure_mbar,
                pulmonary_pressure_mbar: pulmonary.pressure_mbar,
            }
        },
        None => MockloopActuation { systemic_pressure_mbar: 0, pulmonary_pressure_mbar: 0 },
    }
}

} // verus!
