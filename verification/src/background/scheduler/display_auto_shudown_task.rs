//! Switching the display off after a time without activity.
use vstd::prelude::*;
use std::time::Duration;
use crate::background::display_controller::DisplayCommand;
use crate::background::scheduler::scheduler_task_trait::SchedulerTaskTrait;
use crate::background::scheduler::scheduler_task_type::SchedulerTaskType;
use crate::time::{duration_as_nanos, duration_from_millis, nanos};

verus! {

/// Events for the automatic display shutdown.
#[derive(Debug, Clone, Copy, PartialEq, Eq, Structural)]
pub enum DisplayAutoShutdownTaskEvent {
    ResetTimer,
}

/// Switches the display off once `timeout` has passed since the last reset.
#[derive(Debug)]
pub struct DisplayAutoShutdownTask {
    id: String,
    last_reset: Duration,
    timeout: Duration,
}

/// The id of the display shutdown task: the path of its type.
pub open spec fn display_auto_shutdown_task_id() -> Seq<char> {
    "nanowave::background::scheduler::display_auto_shudown_task::DisplayAutoShutdownTask"@
}

/// Whether `timeout` has passed at `now` since `last_reset` (never when
/// `now` is before `last_reset`).
pub open spec fn timed_out(last_reset: Duration, timeout: Duration, now: Duration) -> bool {
    nanos(now) >= nanos(last_reset) && nanos(now) - nanos(last_reset) >= nanos(timeout)
}

impl DisplayAutoShutdownTask {
    /// The id of the display shutdown task, which reset requests name.
    pub fn id() -> (r: String)
        ensures
            r@ == display_auto_shutdown_task_id(),
    {
        String::from_str("nanowave::background::scheduler::display_auto_shudown_task::DisplayAutoShutdownTask")
    }

    /// When the task was last reset.
    pub closed spec fn last_reset(&self) -> Duration {
        self.last_reset
    }

    /// How long after a reset the display is switched off.
    pub closed spec fn timeout(&self) -> Duration {
        self.timeout
    }

    /// The task, reset at `now`, switching the display off
    /// `auto_shutdown_after_ms` milliseconds after each reset.
    pub fn new(auto_shutdown_after_ms: u64, now: Duration) -> (r: Self)
        ensures
            r.spec_id() == display_auto_shutdown_task_id(),
            r.last_reset() == now,
            nanos(r.timeout()) == auto_shutdown_after_ms as int * 1_000_000,
    {
        Self { id: Self::id(), last_reset: now, timeout: duration_from_millis(auto_shutdown_after_ms) }
    }
}

impl SchedulerTaskTrait for DisplayAutoShutdownTask {
    closed spec fn spec_id(&self) -> Seq<char> {
        self.id@
    }

    closed spec fn spec_should_execute(&self, now: Duration) -> bool {
        timed_out(self.last_reset, self.timeout, now)
    }

    closed spec fn spec_reset(&self, now: Duration) -> Self {
        DisplayAutoShutdownTask { last_reset: now, ..*self }
    }

    closed spec fn spec_execute(&self, now: Duration) -> (Self, Option<DisplayCommand>) {
        if self.spec_should_execute(now) {
            (self.spec_reset(now), Some(DisplayCommand::TurnOff))
        } else {
            (*self, None)
        }
    }

    fn id(&self) -> (r: String) {
        self.id.clone()
    }

    fn task_type(&self) -> (r: SchedulerTaskType)
        ensures
            r == SchedulerTaskType::Permanent,
    {
        SchedulerTaskType::Permanent
    }

    fn reset(&mut self, now: Duration) {
        self.last_reset = now;
    }

    fn should_execute(&self, now: Duration) -> (r: bool) {
        let n = duration_as_nanos(now);
        let l = duration_as_nanos(self.last_reset);
        n >= l && n - l >= duration_as_nanos(self.timeout)
    }

    fn execute(&mut self, now: Duration) -> (r: Option<DisplayCommand>) {
        if !self.should_execute(now) {
            return None;
        }
        self.reset(now);
        Some(DisplayCommand::TurnOff)
    }
}

/// The task is due exactly when its timeout has passed since its last
/// reset; a reset at `now` moves its last reset to `now`; running it when due
/// resets it and switches the display off, and otherwise changes nothing.
pub proof fn lemma_task_behaviour(task: DisplayAutoShutdownTask, now: Duration)
    ensures
        task.spec_should_execute(now) == timed_out(task.last_reset(), task.timeout(), now),
        task.spec_reset(now).last_reset() == now,
        task.spec_reset(now).timeout() == task.timeout(),
        task.spec_reset(now).spec_id() == task.spec_id(),
        task.spec_execute(now) == (if task.spec_should_execute(now) {
            (task.spec_reset(now), Some(DisplayCommand::TurnOff))
        } else {
            (task, None::<DisplayCommand>)
        }),
{
}

/// Once the task has switched the display off at `now`, it does not do so
/// again before its timeout has passed anew.
pub proof fn law_no_repeat_before_timeout(task: DisplayAutoShutdownTask, now: Duration, later: Duration)
    requires
        task.spec_should_execute(now),
        nanos(later) < nanos(now) + nanos(task.timeout()),
    ensures
        task.spec_execute(now).1 == Some(DisplayCommand::TurnOff),
        !task.spec_execute(now).0.spec_should_execute(later),
{
}

/// A reset at `now` keeps the display on until the timeout has passed from
/// `now`, and the task switches it off from then on.
pub proof fn law_reset_delays_shutdown(task: DisplayAutoShutdownTask, now: Duration, later: Duration)
    ensures
        task.spec_reset(now).spec_should_execute(later) <==> (nanos(later) >= nanos(now) + nanos(task.timeout())),
{
}

} // verus!
