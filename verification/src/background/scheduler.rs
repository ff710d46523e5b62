//! Timed work: switching the display off after a while without activity.
use vstd::prelude::*;
use std::time::Duration;
use crate::background::display_controller::DisplayCommand;
use crate::time::{duration_as_nanos, nanos};

pub mod scheduler;
pub mod display_auto_shudown_task;
pub mod scheduler_task_trait;
pub mod scheduler_task_type;

verus! {

/// Activity that restarts the display-off timer.
#[derive(Debug, Clone, Copy, PartialEq, Eq, Structural)]
pub enum SchedulerEvent {
    ResetTimer,
}

/// The fixed display-off scheduler.
pub struct Scheduler {}

/// The display is switched off this long after the last activity.
pub open spec fn display_off_after_nanos() -> int {
    30_000_000_000
}

impl Scheduler {
    pub fn new() -> (r: Self) {
        Self {}
    }

    /// Does nothing: activity reaches the timer as events.
    pub fn reset_timer(&mut self)
        ensures
            *final(self) == *old(self),
    {
    }

    /// The display-off timer, started at `now` (a time since the Unix
    /// epoch).
    pub fn start_timer(&self, now: Duration) -> (r: DisplayOffTimer)
        ensures
            r.reference() == now,
    {
        DisplayOffTimer { reference: now }
    }
}

/// When the display was last active, for switching it off after a while.
pub struct DisplayOffTimer {
    reference: Duration,
}

impl DisplayOffTimer {
    /// The time of the last activity (or of the last switch-off).
    pub closed spec fn reference(&self) -> Duration {
        self.reference
    }

    /// Activity is taken and leaves the timer as it is: the reference time
    /// moves only when the timer switches the display off. (The reset
    /// reaches a copy of the reference time that the check never reads.)
    pub fn handle_event(&mut self, event: SchedulerEvent, now: Duration)
        ensures
            final(self).reference() == old(self).reference(),
    {
        match event {
            SchedulerEvent::ResetTimer => {},
        }
    }

    /// The timer checked at `now`: when the display-off delay has passed
    /// since the reference time, the display is switched off and the timer
    /// starts again.
    pub fn tick(&mut self, now: Duration) -> (r: Option<DisplayCommand>)
        ensures
            nanos(now) > nanos(old(self).reference()) + display_off_after_nanos() ==> {
                &&& r == Some(DisplayCommand::TurnOff)
                &&& final(self).reference() == now
            },
            !(nanos(now) > nanos(old(self).reference()) + display_off_after_nanos()) ==> {
                &&& r is None
                &&& final(self).reference() == old(self).reference()
            },
    {
        if duration_as_nanos(now) > duration_as_nanos(self.reference) + 30_000_000_000u128 {
            self.reference = now;
            Some(DisplayCommand::TurnOff)
        } else {
            None
        }
    }
}

} // verus!
