//! The LED blink task's per-wake decision.
//!
//! The task drives the LED through on/off half-cycles of the current
//! interval, racing each half-cycle timer against a new-interval update.
//! Policy: any update that arrives before the next scheduled edge
//! restarts the full on/off cycle with the new interval, so a change is
//! flicker-free but visible at once.

use vstd::prelude::*;

verus! {

/// What woke the blink task: its half-cycle timer, or a new interval.
#[derive(Clone, Copy, Debug, PartialEq, Eq, Structural)]
pub enum BlinkWake {
    TimerFired,
    NewInterval(u64),
}

/// The blink task's live state: the LED level it is currently driving
/// and the half-cycle length.
#[derive(Clone, Copy, Debug, PartialEq, Eq, Structural)]
pub struct BlinkState {
    pub led_on: bool,
    pub interval_ms: u64,
}

impl BlinkState {
    /// The state adopted once the first interval value arrives: the
    /// cycle starts with the LED on.
    pub fn initial(interval_ms: u64) -> (r: BlinkState)
        ensures
            r == (BlinkState { led_on: true, interval_ms }),
    {
        BlinkState { led_on: true, interval_ms }
    }

    /// One wake of the blink task: a timer edge toggles the LED for the
    /// next half-cycle; a new interval is adopted immediately and
    /// restarts the cycle from its on phase.
    pub fn step(&mut self, wake: BlinkWake)
        ensures
            *final(self) == match wake {
                BlinkWake::TimerFired => (BlinkState {
                    led_on: !old(self).led_on,
                    interval_ms: old(self).interval_ms,
                }),
                BlinkWake::NewInterval(v) => (BlinkState { led_on: true, interval_ms: v }),
            },
    {
        match wake {
            BlinkWake::TimerFired => {
                self.led_on = !self.led_on;
            },
            BlinkWake::NewInterval(v) => {
                self.led_on = true;
                self.interval_ms = v;
            },
        }
    }
}

} // verus!
