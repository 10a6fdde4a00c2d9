//! Data model of the controller: setpoints coming in from the host,
//! measurements sampled on the device, and the reports sent back.
//!
//! Physical quantities are carried as plain integers: heart rate in cycles
//! per minute, the systole ratio in thousandths, pressures in millibar,
//! sensor readings in their raw units (millimetre of mercury for pressures,
//! litre per minute for flows) and timestamps in microseconds.

use vstd::prelude::*;

verus! {

/// Host-supplied targets for the heart controller.  Immutable once
/// received; superseded wholesale by the next setpoint.
#[derive(Clone, Copy, Debug, PartialEq, Eq, Structural)]
pub struct HeartControllerSetpoint {
    /// Desired heart rate in cycles per minute.
    pub heart_rate_cpm: u32,
    /// Ratio of systole duration to the full cycle, in thousandths.
    pub systole_ratio_permille: u16,
    /// Desired regulator pressure in millibar.
    pub pressure_mbar: u32,
}

/// Host-supplied targets for the mock circulatory loop itself.
#[derive(Clone, Copy, Debug, PartialEq, Eq, Structural)]
pub struct MockloopSetpoint {
    /// Raw systemic afterload compliance target, in millibar.
    pub systemic_afterload_compliance: u32,
    /// Raw pulmonary afterload compliance target, in millibar.
    pub pulmonary_afterload_compliance: u32,
    /// Raw systemic flow resistance target.
    pub systemic_resistance: u32,
    /// Raw pulmonary flow resistance target.
    pub pulmonary_resistance: u32,
}

/// Complete target configuration sent by the host.  An absent sub-setpoint
/// means that subsystem is disabled and must hold its safe state.
#[derive(Clone, Copy, Debug, PartialEq, Eq)]
pub struct Setpoint {
    pub enable: bool,
    pub heart_controller_setpoint: Option<HeartControllerSetpoint>,
    pub mockloop_setpoint: Option<MockloopSetpoint>,
}

impl Default for Setpoint {
    /// Everything disabled: no sub-setpoints, nothing enabled.
    fn default() -> (s: Self)
        ensures
            s == Setpoint::spec_default(),
    {
        Setpoint { enable: false, heart_controller_setpoint: None, mockloop_setpoint: None }
    }
}

impl Setpoint {
    pub open spec fn spec_default() -> Self {
        Setpoint { enable: false, heart_controller_setpoint: None, mockloop_setpoint: None }
    }
}

/// Application mode, cycled by the user button and shown on the indicator.
#[derive(Clone, Copy, Debug, PartialEq, Eq, Structural)]
pub enum AppState {
    StandBy,
    Running,
    Fault,
}

impl Default for AppState {
    fn default() -> (s: Self)
        ensures
            s == AppState::StandBy,
    {
        AppState::StandBy
    }
}

impl AppState {
    /// The mode the button advances to from this one; the three modes form
    /// a cycle.
    pub fn next(self) -> (n: Self)
        ensures
            n == self.spec_next(),
    {
        match self {
            AppState::StandBy => AppState::Running,
            AppState::Running => AppState::Fault,
            AppState::Fault => AppState::StandBy,
        }
    }

    pub open spec fn spec_next(self) -> Self {
        match self {
            AppState::StandBy => AppState::Running,
            AppState::Running => AppState::Fault,
            AppState::Fault => AppState::StandBy,
        }
    }
}

/// State of one ventricle solenoid valve: pressurising or evacuating the
/// pneumatic chamber.
#[derive(Clone, Copy, Debug, PartialEq, Eq, Structural)]
pub enum ValveState {
    Pressure,
    Vacuum,
}

impl ValveState {
    /// Level to drive the valve's output pin to: high pressurises, low
    /// evacuates.
    pub fn drive_high(self) -> (high: bool)
        ensures
            high == (self is Pressure),
    {
        match self {
            ValveState::Pressure => true,
            ValveState::Vacuum => false,
        }
    }
}

/// One raw conversion result per analog input, exactly as sampled.
#[derive(Clone, Copy, Debug, PartialEq, Eq, Structural)]
pub struct AdcFrame {
    pub regulator_actual_pressure: u16,
    pub systemic_flow: u16,
    pub pulmonary_flow: u16,
    pub systemic_preload_pressure: u16,
    pub systemic_afterload_pressure: u16,
    pub pulmonary_preload_pressure: u16,
    pub pulmonary_afterload_pressure: u16,
}

/// A timestamped set of physical readings: pressures in millimetre of
/// mercury, flows in litre per minute.
#[derive(Clone, Copy, Debug, PartialEq, Eq, Structural)]
pub struct Measurements {
    /// Time of the sample, in microseconds since power-up.
    pub timestamp_us: u64,
    pub regulator_actual_pressure_mmhg: u16,
    pub systemic_flow_lpm: u16,
    pub pulmonary_flow_lpm: u16,
    pub systemic_preload_pressure_mmhg: u16,
    pub systemic_afterload_pressure_mmhg: u16,
    pub pulmonary_preload_pressure_mmhg: u16,
    pub pulmonary_afterload_pressure_mmhg: u16,
}

impl AdcFrame {
    /// Collect a raw frame into a measurement set taken at `timestamp_us`.
    /// The analog front end delivers each reading directly in its physical
    /// unit, so the values carry over unchanged.
    pub fn into_measurement(self, timestamp_us: u64) -> (m: Measurements)
        ensures
            m == self.spec_into_measurement(timestamp_us),
    {
        Measurements {
            timestamp_us,
            regulator_actual_pressure_mmhg: self.regulator_actual_pressure,
            systemic_flow_lpm: self.systemic_flow,
            pulmonary_flow_lpm: self.pulmonary_flow,
            systemic_preload_pressure_mmhg: self.systemic_preload_pressure,
            systemic_afterload_pressure_mmhg: self.systemic_afterload_pressure,
            pulmonary_preload_pressure_mmhg: self.pulmonary_preload_pressure,
            pulmonary_afterload_pressure_mmhg: self.pulmonary_afterload_pressure,
        }
    }

    pub open spec fn spec_into_measurement(self, timestamp_us: u64) -> Measurements {
        Measurements {
            timestamp_us,
            regulator_actual_pressure_mmhg: self.regulator_actual_pressure,
            systemic_flow_lpm: self.systemic_flow,
            pulmonary_flow_lpm: self.pulmonary_flow,
            systemic_preload_pressure_mmhg: self.systemic_preload_pressure,
            systemic_afterload_pressure_mmhg: self.systemic_afterload_pressure,
            pulmonary_preload_pressure_mmhg: self.pulmonary_preload_pressure,
            pulmonary_afterload_pressure_mmhg: self.pulmonary_afterload_pressure,
        }
    }
}

/// Telemetry snapshot sent to the host: the latest application mode,
/// measurement set and setpoint, assembled once per reporting cycle.
#[derive(Clone, Copy, Debug, PartialEq, Eq)]
pub struct Report {
    pub app_state: AppState,
    pub measurements: Measurements,
    pub setpoint: Setpoint,
}

/// Given the current set of measurements and previous state, what is our
/// current state?  The mode logic is not implemented yet: the device always
/// reports stand-by.
pub fn calculate_appstate() -> (s: AppState)
    ensures
        s == AppState::StandBy,
{
    AppState::StandBy
}

/// Combine the latest raw frame, the latest known setpoint (or the default
/// if none arrived yet) and the computed application mode into a report.
pub fn assemble_report(frame: AdcFrame, latest_setpoint: Option<Setpoint>, timestamp_us: u64) -> (r:
    Report)
    ensures
        r.app_state == AppState::StandBy,
        r.measurements == frame.spec_into_measurement(timestamp_us),
        r.setpoint == (if latest_setpoint is Some {
            latest_setpoint->0
        } else {
            Setpoint::spec_default()
        }),
{
    let setpoint = match latest_setpoint {
        Some(s) => s,
        None => Setpoint::default(),
    };
    Report { app_state: calculate_appstate(), measurements: frame.into_measurement(timestamp_us), setpoint }
}

/// Failures talking to the actuators.
#[derive(Clone, Copy, Debug, PartialEq, Eq, Structural)]
pub enum ControlError {
    /// Unable to communicate with the pressure regulator.
    Regulator,
    /// Unable to communicate with a solenoid valve.
    Valve,
}

} // verus!
