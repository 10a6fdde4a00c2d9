//! Per-iteration state machine of the cardiac phase controller.
//!
//! The controller owns the current phase, the time already spent in it, and
//! the last setpoint received.  The surrounding task races a timer for the
//! remaining phase time against the arrival of a new setpoint; whichever
//! wins, it calls `step` with the wall-clock time elapsed since the
//! previous iteration and with the new setpoint if one arrived.  `step`
//! returns the actuation to apply: a pressure target, a state for each
//! ventricle valve, and how long to wait next — or no wait at all while the
//! controller is disabled, in which case only a new setpoint resumes it.
//!
//! A new setpoint preserves the partially elapsed time in phase: only the
//! target duration is recomputed.  An absent heart-controller sub-setpoint
//! disables the controller: the actuators go to the safe state, the
//! time-in-phase tracking resets, and on re-enable the phase clock restarts
//! from systole.

use vstd::prelude::*;

verus! {

use crate::messages::{Setpoint, ValveState};
use crate::phase::{spec_phase_duration, CardiacPhase};

/// What the controller asks the actuators and its own timer to do after
/// one iteration.
#[derive(Clone, Copy, Debug, PartialEq, Eq)]
pub struct Actuation {
    /// Target for the pressure regulator, in millibar.
    pub pressure_mbar: u32,
    /// State for the left ventricle valve.
    pub left_valve: ValveState,
    /// State for the right ventricle valve.
    pub right_valve: ValveState,
    /// Remaining time in the current phase, to be raced against the next
    /// setpoint; `None` while disabled: wait for a setpoint alone.
    pub wait_ns: Option<u64>,
}

/// Valve state effecting a cardiac phase: pressurise to contract, evacuate
/// to relax.  Both valves follow this same mapping.
pub fn get_valve_state_for_cardiac_phase(phase: &CardiacPhase) -> (v: ValveState)
    ensures
        v == spec_valve_state_for_phase(*phase),
{
    match phase {
        CardiacPhase::Systole => ValveState::Pressure,
        CardiacPhase::Diastole => ValveState::Vacuum,
    }
}

pub open spec fn spec_valve_state_for_phase(phase: CardiacPhase) -> ValveState {
    match phase {
        CardiacPhase::Systole => ValveState::Pressure,
        CardiacPhase::Diastole => ValveState::Vacuum,
    }
}

/// The safe actuation: no pressure, both valves pressurising (the solenoid
/// rest state considered harmless), no timed wait.
pub open spec fn spec_safe_actuation() -> Actuation {
    Actuation {
        pressure_mbar: 0,
        left_valve: ValveState::Pressure,
        right_valve: ValveState::Pressure,
        wait_ns: None,
    }
}

/// Build the safe actuation; applied on startup and whenever the
/// controller is disabled.  Pure, hence idempotent and free of side
/// effects however often it is applied.
pub fn safe_actuation() -> (a: Actuation)
    ensures
        a == spec_safe_actuation(),
{
    Actuation {
        pressure_mbar: 0,
        left_valve: ValveState::Pressure,
        right_valve: ValveState::Pressure,
        wait_ns: None,
    }
}

/// Addition on the time-in-phase clock; sticks at the maximum rather than
/// wrapping.
pub open spec fn spec_saturating_add(a: u64, b: u64) -> u64 {
    if a + b > u64::MAX {
        u64::MAX
    } else {
        (a + b) as u64
    }
}

/// The cardiac phase controller's state between iterations.
pub struct HeartController {
    /// Current cardiac phase of the heart.
    pub current_phase: CardiacPhase,
    /// Time spent in the current phase so far, in nanoseconds.
    pub time_in_phase_ns: u64,
    /// The setpoint currently steering the controller.
    pub setpoint: Setpoint,
}

impl HeartController {
    /// A fresh controller: in systole, no time elapsed, steered by the
    /// given setpoint (the task blocks for the first one before starting).
    pub fn new(initial: Setpoint) -> (c: Self)
        ensures
            c.current_phase == CardiacPhase::Systole,
            c.time_in_phase_ns == 0,
            c.setpoint == initial,
    {
        HeartController {
            current_phase: CardiacPhase::Systole,
            time_in_phase_ns: 0,
            setpoint: initial,
        }
    }

    /// One iteration of the control loop.
    ///
    /// `elapsed_ns` is the wall-clock time since the previous iteration;
    /// `incoming` is the new setpoint if the race was won by a setpoint
    /// arrival, `None` if it was won by the phase timer.
    ///
    /// While the heart-controller sub-setpoint is present: the elapsed time
    /// is added to the time in phase; when the total phase time is reached
    /// the phase switches and the clock restarts; the actuation drives the
    /// regulator to the setpoint's pressure and both valves according to
    /// the phase, and asks for a wait of the remaining phase time.
    ///
    /// While it is absent: the state resets to systole at time zero and the
    /// actuation is the safe state with no timed wait.  Time spent disabled
    /// never counts: on the iteration that re-enables the controller the
    /// elapsed time is discarded and the phase clock starts from zero.
    pub fn step(&mut self, elapsed_ns: u64, incoming: Option<Setpoint>) -> (act: Actuation)
        ensures
            final(self).setpoint == (if incoming is Some {
                incoming->0
            } else {
                old(self).setpoint
            }),
            final(self).setpoint.heart_controller_setpoint is None ==> ({
                &&& final(self).current_phase == CardiacPhase::Systole
                &&& final(self).time_in_phase_ns == 0
                &&& act == spec_safe_actuation()
            }),
            final(self).setpoint.heart_controller_setpoint matches Some(h) ==> ({
                let advanced = spec_saturating_add(
                    old(self).time_in_phase_ns,
                    if old(self).setpoint.heart_controller_setpoint is None {
                        0
                    } else {
                        elapsed_ns
                    },
                );
                let total = spec_phase_duration(
                    old(self).current_phase,
                    h.heart_rate_cpm,
                    h.systole_ratio_permille,
                );
                &&& (advanced >= total ==> ({
                    let new_phase = old(self).current_phase.spec_switch();
                    let new_total = spec_phase_duration(
                        new_phase,
                        h.heart_rate_cpm,
                        h.systole_ratio_permille,
                    );
                    &&& final(self).current_phase == new_phase
                    &&& final(self).time_in_phase_ns == 0
                    &&& act.wait_ns == Some(new_total)
                }))
                &&& (advanced < total ==> ({
                    &&& final(self).current_phase == old(self).current_phase
                    &&& final(self).time_in_phase_ns == advanced
                    &&& act.wait_ns == Some((total - advanced) as u64)
                }))
                &&& act.pressure_mbar == h.pressure_mbar
                &&& act.left_valve == spec_valve_state_for_phase(final(self).current_phase)
                &&& act.right_valve == spec_valve_state_for_phase(final(self).current_phase)
            }),
    {
        // Time in phase does not advance while the controller is disabled:
        // what elapsed before a re-enabling setpoint does not count.
        let was_disabled = match self.setpoint.heart_controller_setpoint {
            None => true,
            Some(_) => false,
        };
        let elapsed_ns = if was_disabled {
            0
        } else {
            elapsed_ns
        };
        if let Some(new_setpoint) = incoming {
            // The partially elapsed time in phase survives a setpoint
            // change; only the target duration is recalculated below.
            self.setpoint = new_setpoint;
        }
        match self.setpoint.heart_controller_setpoint {
            None => {
                // Disabled: move to the safe state and be ready to restart
                // the phase clock from the beginning on re-enable.
                self.current_phase = CardiacPhase::Systole;
                self.time_in_phase_ns = 0;
                safe_actuation()
            },
            Some(heart_setpoint) => {
                // Update time spent in the current phase.
                if elapsed_ns > u64::MAX - self.time_in_phase_ns {
                    self.time_in_phase_ns = u64::MAX;
                } else {
                    self.time_in_phase_ns = self.time_in_phase_ns + elapsed_ns;
                }
                // Calculate the total time to spend in the current phase.
                let mut total_phase_time = self.current_phase.get_total_phase_time(
                    heart_setpoint.heart_rate_cpm,
                    heart_setpoint.systole_ratio_permille,
                );
                // Ready to switch to a new cardiac phase?
                if self.time_in_phase_ns >= total_phase_time {
                    self.current_phase = self.current_phase.switch();
                    // A new phase began: redo the total phase time
                    // calculation and restart the clock.
                    total_phase_time = self.current_phase.get_total_phase_time(
                        heart_setpoint.heart_rate_cpm,
                        heart_setpoint.systole_ratio_permille,
                    );
                    self.time_in_phase_ns = 0;
                }
                let valve_state = get_valve_state_for_cardiac_phase(&self.current_phase);
                Actuation {
                    pressure_mbar: heart_setpoint.pressure_mbar,
                    left_valve: valve_state,
                    right_valve: valve_state,
                    wait_ns: Some(total_phase_time - self.time_in_phase_ns),
                }
            },
        }
    }
}

} // verus!
