//! What the scheduler needs of a task.
use vstd::prelude::*;
use std::time::Duration;
use crate::background::display_controller::DisplayCommand;
use crate::background::scheduler::scheduler_task_type::SchedulerTaskType;

verus! {

/// A task the scheduler runs when it is due. Times are times since the Unix
/// epoch.
pub trait SchedulerTaskTrait: Sized {
    /// The name by which reset events find the task.
    spec fn spec_id(&self) -> Seq<char>;

    /// Whether the task is due at `now`.
    spec fn spec_should_execute(&self, now: Duration) -> bool;

    /// The task after a reset at `now`.
    spec fn spec_reset(&self, now: Duration) -> Self;

    /// The task after running at `now`, and the display command it asks for.
    spec fn spec_execute(&self, now: Duration) -> (Self, Option<DisplayCommand>);

    fn id(&self) -> (r: String)
        ensures
            r@ == self.spec_id();

    fn task_type(&self) -> SchedulerTaskType;

    fn reset(&mut self, now: Duration)
        ensures
            *final(self) == old(self).spec_reset(now);

    fn should_execute(&self, now: Duration) -> (r: bool)
        ensures
            r == self.spec_should_execute(now);

    /// Runs the task if it is due; returns the display command to send when
    /// it ran.
    fn execute(&mut self, now: Duration) -> (r: Option<DisplayCommand>)
        ensures
            (*final(self), r) == old(self).spec_execute(now);
}

} // verus!
