//! Indicator LED cadence: the blink period shows the application mode,
//! counted down in fixed task ticks.

use vstd::prelude::*;

verus! {

use crate::messages::AppState;

/// Period at which the LED task is ticked, in nanoseconds.
pub const LED_TASK_TICK_PERIOD_NS: u64 = 100_000_000;

/// Half-period of the LED blink for a mode, in nanoseconds: slow in
/// stand-by, fast while running, frozen on a fault.
pub open spec fn spec_led_blink_period(app_state: AppState) -> u64 {
    match app_state {
        AppState::StandBy => 500_000_000u64,
        AppState::Running => 250_000_000u64,
        AppState::Fault => u64::MAX,
    }
}

pub fn get_led_blink_period(app_state: AppState) -> (p: u64)
    ensures
        p == spec_led_blink_period(app_state),
{
    match app_state {
        AppState::StandBy => 500_000_000,
        AppState::Running => 250_000_000,
        AppState::Fault => u64::MAX,
    }
}

/// What remains of the current blink half-period after one tick: a mode
/// change abandons it, otherwise one tick is subtracted until it runs out.
pub open spec fn spec_led_countdown(pre: LedBlinker, new_app_state: Option<AppState>) -> Option<
    u64,
> {
    let rem = if new_app_state is Some {
        None
    } else {
        pre.remaining_ns
    };
    match rem {
        Some(r) => if r >= LED_TASK_TICK_PERIOD_NS {
            Some((r - LED_TASK_TICK_PERIOD_NS) as u64)
        } else {
            None
        },
        None => None,
    }
}

/// Drives the indicator LED: tracks the application mode and the time left
/// in the current blink half-period.
pub struct LedBlinker {
    pub app_state: AppState,
    /// Time left before the next toggle; `None` forces a toggle and a
    /// fresh period on the next tick.
    pub remaining_ns: Option<u64>,
}

impl LedBlinker {
    pub fn new() -> (b: Self)
        ensures
            b.app_state == AppState::StandBy,
            b.remaining_ns == Some(spec_led_blink_period(AppState::StandBy)),
    {
        let app_state = AppState::default();
        let period = get_led_blink_period(app_state);
        LedBlinker { app_state, remaining_ns: Some(period) }
    }

    /// One tick of the LED task: adopt a new application mode if one
    /// arrived (restarting the blink cycle), count the tick off the
    /// current half-period, and report whether the LED must toggle now.
    /// After a toggle the half-period of the current mode starts over.
    pub fn tick(&mut self, new_app_state: Option<AppState>) -> (toggle: bool)
        ensures
            final(self).app_state == (if new_app_state is Some {
                new_app_state->0
            } else {
                old(self).app_state
            }),
            toggle == (spec_led_countdown(*old(self), new_app_state) is None),
            final(self).remaining_ns == (match spec_led_countdown(*old(self), new_app_state) {
                Some(r) => Some(r),
                None => Some(spec_led_blink_period(final(self).app_state)),
            }),
    {
        if let Some(state) = new_app_state {
            // A new mode restarts the LED cycle.
            self.remaining_ns = None;
            self.app_state = state;
        }
        if let Some(remaining) = self.remaining_ns {
            self.remaining_ns = if remaining >= LED_TASK_TICK_PERIOD_NS {
                Some(remaining - LED_TASK_TICK_PERIOD_NS)
            } else {
                None
            };
        }
        if self.remaining_ns.is_none() {
            // The current half-period finished: toggle and start the next.
            self.remaining_ns = Some(get_led_blink_period(self.app_state));
            true
        } else {
            false
        }
    }
}

} // verus!
