use mockloop_controller::controller::{safe_actuation, HeartController};
use mockloop_controller::messages::{HeartControllerSetpoint, Setpoint, ValveState};
use mockloop_controller::phase::CardiacPhase;

fn running_setpoint(rate: u32, ratio: u16, pressure: u32) -> Setpoint {
    Setpoint {
        enable: true,
        heart_controller_setpoint: Some(HeartControllerSetpoint {
            heart_rate_cpm: rate,
            systole_ratio_permille: ratio,
            pressure_mbar: pressure,
        }),
        mockloop_setpoint: None,
    }
}

fn disabled_setpoint() -> Setpoint {
    Setpoint {
        enable: false,
        heart_controller_setpoint: None,
        mockloop_setpoint: None,
    }
}

#[test]
fn controller_runs_the_phase_clock() {
    // 60 cycles/min, ratio 0.3: systole lasts 300ms, diastole 700ms.
    let mut c = HeartController::new(running_setpoint(60, 300, 1000));
    let act = c.step(0, None);
    assert_eq!(c.current_phase, CardiacPhase::Systole);
    assert_eq!(act.pressure_mbar, 1000);
    assert_eq!(act.left_valve, ValveState::Pressure);
    assert_eq!(act.right_valve, ValveState::Pressure);
    assert_eq!(act.wait_ns, Some(300_000_000));

    // The timer fires after the full systole: switch to diastole.
    let act = c.step(300_000_000, None);
    assert_eq!(c.current_phase, CardiacPhase::Diastole);
    assert_eq!(c.time_in_phase_ns, 0);
    assert_eq!(act.left_valve, ValveState::Vacuum);
    assert_eq!(act.right_valve, ValveState::Vacuum);
    assert_eq!(act.wait_ns, Some(700_000_000));

    // And back to systole after the diastole.
    let act = c.step(700_000_000, None);
    assert_eq!(c.current_phase, CardiacPhase::Systole);
    assert_eq!(act.wait_ns, Some(300_000_000));
}

#[test]
fn disabling_mid_phase_moves_to_safe_state_and_reenable_restarts_from_systole() {
    let mut c = HeartController::new(running_setpoint(60, 300, 1000));
    c.step(0, None);
    // 120ms into systole the heart-controller sub-setpoint disappears.
    let act = c.step(120_000_000, Some(disabled_setpoint()));
    // Actuators move to the safe state within this very iteration...
    assert_eq!(act, safe_actuation());
    assert_eq!(act.pressure_mbar, 0);
    assert_eq!(act.left_valve, ValveState::Pressure);
    assert_eq!(act.right_valve, ValveState::Pressure);
    assert_eq!(act.wait_ns, None);
    // ...and the time-in-phase tracking resets.
    assert_eq!(c.time_in_phase_ns, 0);

    // Re-enable: the phase clock restarts from systole at time zero.
    let act = c.step(50_000_000_000, Some(running_setpoint(60, 300, 1000)));
    assert_eq!(c.current_phase, CardiacPhase::Systole);
    assert_eq!(act.wait_ns, Some(300_000_000));
}

#[test]
fn new_setpoint_mid_wait_preserves_elapsed_time() {
    // A new setpoint arrives 50ms into a 300ms systole wait.
    let mut c = HeartController::new(running_setpoint(60, 300, 1000));
    c.step(0, None);
    let act = c.step(50_000_000, Some(running_setpoint(120, 300, 1000)));
    // The race resolved via the setpoint branch: the phase did not switch
    // and the 50ms already elapsed were kept...
    assert_eq!(c.current_phase, CardiacPhase::Systole);
    assert_eq!(c.time_in_phase_ns, 50_000_000);
    // ...and the next wait uses the new rate: systole is now 150ms total,
    // of which 50ms have already passed.
    assert_eq!(act.wait_ns, Some(100_000_000));
}

#[test]
fn setpoint_change_past_the_new_total_switches_at_once() {
    // 200ms into a 300ms systole, the new rate makes systole only 150ms:
    // the phase switches in the same iteration and the clock restarts.
    let mut c = HeartController::new(running_setpoint(60, 300, 1000));
    c.step(0, None);
    let act = c.step(200_000_000, Some(running_setpoint(120, 300, 1000)));
    assert_eq!(c.current_phase, CardiacPhase::Diastole);
    assert_eq!(c.time_in_phase_ns, 0);
    assert_eq!(act.wait_ns, Some(350_000_000));
}

#[test]
fn zero_heart_rate_freezes_the_phase() {
    let mut c = HeartController::new(running_setpoint(0, 300, 700));
    let act = c.step(0, None);
    // The phase is held forever rather than crashing or switching.
    assert_eq!(c.current_phase, CardiacPhase::Systole);
    assert_eq!(act.wait_ns, Some(u64::MAX));
    assert_eq!(act.pressure_mbar, 700);
}

#[test]
fn controller_startup_state() {
    let c = HeartController::new(disabled_setpoint());
    assert_eq!(c.current_phase, CardiacPhase::Systole);
    assert_eq!(c.time_in_phase_ns, 0);
    // The safe actuation is pure: building it twice gives the same value.
    assert_eq!(safe_actuation(), safe_actuation());
}
