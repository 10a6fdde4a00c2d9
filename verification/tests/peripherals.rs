use mockloop_controller::comms::Transport;
use mockloop_controller::dac::{DacId, RegulatorSetpoint};
use mockloop_controller::led::{get_led_blink_period, LedBlinker};
use mockloop_controller::loop_control::{
    mockloop_step, ComplianceSetpoint, MockloopActuation, ResistanceSetpoint,
};
use mockloop_controller::messages::{
    assemble_report, calculate_appstate, AdcFrame, AppState, ControlError, MockloopSetpoint,
    Setpoint, ValveState,
};

#[test]
fn pressure_to_dac_code_is_a_linear_clamp() {
    assert_eq!(RegulatorSetpoint::from_pressure(0).pressure, 0);
    // 1000 mbar of the 2000 mbar range: 1000 * 8191 / 2000 = 4095.
    assert_eq!(RegulatorSetpoint::from_pressure(1000).pressure, 4095);
    assert_eq!(RegulatorSetpoint::from_pressure(2000).pressure, 8191);
    // Out-of-range pressures clamp to the top code.
    assert_eq!(RegulatorSetpoint::from_pressure(3000).pressure, 8191);
    assert_eq!(RegulatorSetpoint::from_pressure(u32::MAX).pressure, 8191);
}

#[test]
fn dac_code_back_to_pressure() {
    assert_eq!(RegulatorSetpoint { pressure: 0 }.to_pressure(), 0);
    assert_eq!(RegulatorSetpoint { pressure: 8191 }.to_pressure(), 2000);
    // 4095 * 2000 / 8191 = 999 (floor).
    assert_eq!(RegulatorSetpoint { pressure: 4095 }.to_pressure(), 999);
}

#[test]
fn led_blink_periods_follow_the_mode() {
    assert_eq!(get_led_blink_period(AppState::StandBy), 500_000_000);
    assert_eq!(get_led_blink_period(AppState::Running), 250_000_000);
    assert_eq!(get_led_blink_period(AppState::Fault), u64::MAX);
}

#[test]
fn led_toggles_when_the_period_runs_out() {
    let mut b = LedBlinker::new();
    // Stand-by starts with 500ms on the clock; 100ms ticks count it down
    // through zero, so the toggle lands on the sixth tick.
    for _ in 0..5 {
        assert!(!b.tick(None));
    }
    assert!(b.tick(None));
    // A mode change restarts the cycle with an immediate toggle.
    assert!(!b.tick(None));
    assert!(b.tick(Some(AppState::Running)));
    assert_eq!(b.app_state, AppState::Running);
    // Running blinks every 250ms: one full tick, one partial.
    assert!(!b.tick(None));
    assert!(!b.tick(None));
    assert!(b.tick(None));
}

#[test]
fn mockloop_step_drives_both_chambers() {
    let sp = Setpoint {
        enable: true,
        heart_controller_setpoint: None,
        mockloop_setpoint: Some(MockloopSetpoint {
            systemic_afterload_compliance: 150,
            pulmonary_afterload_compliance: 75,
            systemic_resistance: 10,
            pulmonary_resistance: 20,
        }),
    };
    // Both chambers follow the systemic compliance value, as the
    // controller is built today.
    assert_eq!(
        mockloop_step(&sp),
        MockloopActuation {
            systemic_pressure_mbar: 150,
            pulmonary_pressure_mbar: 150,
        }
    );
    // A disabled loop goes to the safe zero pressure.
    let disabled = Setpoint {
        enable: false,
        heart_controller_setpoint: None,
        mockloop_setpoint: None,
    };
    assert_eq!(
        mockloop_step(&disabled),
        MockloopActuation {
            systemic_pressure_mbar: 0,
            pulmonary_pressure_mbar: 0,
        }
    );
}

#[test]
fn raw_conversions_pass_values_through() {
    assert_eq!(ComplianceSetpoint::from_raw_compliance(42).pressure_mbar, 42);
    assert_eq!(
        ResistanceSetpoint::from_raw_resistance(55).valve_open_percentage,
        55
    );
}

#[test]
fn report_assembly_uses_the_latest_or_default_setpoint() {
    let frame = AdcFrame {
        regulator_actual_pressure: 7,
        systemic_flow: 1,
        pulmonary_flow: 2,
        systemic_preload_pressure: 3,
        systemic_afterload_pressure: 4,
        pulmonary_preload_pressure: 5,
        pulmonary_afterload_pressure: 6,
    };
    let r = assemble_report(frame, None, 1000);
    assert_eq!(r.app_state, AppState::StandBy);
    assert_eq!(r.setpoint, Setpoint::default());
    assert_eq!(r.measurements.timestamp_us, 1000);
    assert_eq!(r.measurements.regulator_actual_pressure_mmhg, 7);
    assert_eq!(r.measurements.pulmonary_afterload_pressure_mmhg, 6);

    let sp = Setpoint {
        enable: true,
        heart_controller_setpoint: None,
        mockloop_setpoint: None,
    };
    let r2 = assemble_report(frame, Some(sp), 2000);
    assert_eq!(r2.setpoint, sp);
    assert_eq!(calculate_appstate(), AppState::StandBy);
}

#[test]
fn app_state_cycles_through_the_modes() {
    assert_eq!(AppState::default(), AppState::StandBy);
    assert_eq!(AppState::StandBy.next(), AppState::Running);
    assert_eq!(AppState::Running.next(), AppState::Fault);
    assert_eq!(AppState::Fault.next(), AppState::StandBy);
    assert_eq!(AppState::StandBy.next().next().next(), AppState::StandBy);
}

#[test]
fn valve_states_map_to_pin_levels() {
    assert!(ValveState::Pressure.drive_high());
    assert!(!ValveState::Vacuum.drive_high());
}

struct NullLink;

impl Transport for NullLink {
    fn send_report(_report: mockloop_controller::messages::Report) {}

    fn receive_setpoint(_setpoint: Setpoint) {}
}

#[test]
fn transport_and_error_types_are_usable() {
    let sp = Setpoint::default();
    NullLink::receive_setpoint(sp);
    assert_ne!(ControlError::Regulator, ControlError::Valve);
    assert_ne!(DacId::Heart, DacId::Systemic);
    assert_ne!(DacId::Systemic, DacId::Pulmonary);
}
