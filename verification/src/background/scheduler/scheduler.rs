//! Running scheduled tasks: resetting them on request and running the ones
//! that are due.
use vstd::prelude::*;
use std::time::Duration;
use crate::background::display_controller::DisplayCommand;
use crate::background::scheduler::scheduler_task_trait::SchedulerTaskTrait;
use crate::text::str_equals;
use crate::background::scheduler::display_auto_shudown_task::{
    display_auto_shutdown_task_id, lemma_task_behaviour, DisplayAutoShutdownTask,
};
use crate::time::nanos;

verus! {

/// A request to the scheduler: reset the tasks with this id.
#[derive(Debug, PartialEq, Eq)]
pub enum SchedulerEvent {
    Reset(String),
}

/// The tasks the scheduler runs.
pub struct Scheduler<T: SchedulerTaskTrait> {
    tasks: Vec<T>,
}

/// The tasks after a reset of the ones named `id` at `now`.
pub open spec fn reset_tasks<T: SchedulerTaskTrait>(tasks: Seq<T>, id: Seq<char>, now: Duration) -> Seq<T> {
    tasks.map_values(|t: T| if t.spec_id() == id {
        t.spec_reset(now)
    } else {
        t
    })
}

/// The tasks after the due ones ran at `now`.
pub open spec fn ran_tasks<T: SchedulerTaskTrait>(tasks: Seq<T>, now: Duration) -> Seq<T> {
    tasks.map_values(|t: T| if t.spec_should_execute(now) {
        t.spec_execute(now).0
    } else {
        t
    })
}

/// The display commands the due tasks ask for at `now`, in task order.
pub open spec fn due_commands<T: SchedulerTaskTrait>(tasks: Seq<T>, now: Duration) -> Seq<DisplayCommand>
    decreases tasks.len(),
{
    if tasks.len() == 0 {
        Seq::empty()
    } else {
        let rest = due_commands(tasks.drop_last(), now);
        let t = tasks.last();
        if t.spec_should_execute(now) {
            match t.spec_execute(now).1 {
                Some(c) => rest.push(c),
                None => rest,
            }
        } else {
            rest
        }
    }
}

impl<T: SchedulerTaskTrait> Scheduler<T> {
    /// The tasks, in the order they were added.
    pub closed spec fn tasks(&self) -> Seq<T> {
        self.tasks@
    }

    /// No tasks.
    pub fn new() -> (r: Self)
        ensures
            r.tasks() == Seq::<T>::empty(),
    {
        Self { tasks: Vec::new() }
    }

    /// Adds a task after the others; returns the scheduler, for adding more.
    pub fn add_task(&mut self, task: T) -> (r: &mut Self)
        ensures
            r.tasks() == old(self).tasks().push(task),
            *final(self) == *final(r),
    {
        self.tasks.push(task);
        self
    }

    /// Handles a request: resets at `now` every task with the id asked for.
    pub fn handle_event(&mut self, event: SchedulerEvent, now: Duration)
        ensures
            final(self).tasks() == (match event {
                SchedulerEvent::Reset(id) => reset_tasks(old(self).tasks(), id@, now),
            }),
    {
        match event {
            SchedulerEvent::Reset(task_id) => {
                let ghost old_tasks = self.tasks@;
                let mut i: usize = 0;
                while i < self.tasks.len()
                    invariant
                        i <= self.tasks@.len(),
                        self.tasks@.len() == old_tasks.len(),
                        forall|j: int| 0 <= j < i ==> #[trigger] self.tasks@[j] == (if old_tasks[j].spec_id() == task_id@ {
                            old_tasks[j].spec_reset(now)
                        } else {
                            old_tasks[j]
                        }),
                        forall|j: int| i <= j < self.tasks@.len() ==> #[trigger] self.tasks@[j] == old_tasks[j],
                    decreases self.tasks@.len() - i,
                {
                    let id = self.tasks[i].id();
                    if str_equals(id.as_str(), task_id.as_str()) {
                        self.tasks[i].reset(now);
                    }
                    i = i + 1;
                }
                assert(self.tasks@ =~= reset_tasks(old_tasks, task_id@, now));
            },
        }
    }

    /// Runs every task that is due at `now`; returns the display commands
    /// they ask for.
    pub fn run_due_tasks(&mut self, now: Duration) -> (r: Vec<DisplayCommand>)
        ensures
            final(self).tasks() == ran_tasks(old(self).tasks(), now),
            r@ == due_commands(old(self).tasks(), now),
    {
        let ghost old_tasks = self.tasks@;
        let mut commands: Vec<DisplayCommand> = Vec::new();
        let mut i: usize = 0;
        while i < self.tasks.len()
            invariant
                i <= self.tasks@.len(),
                self.tasks@.len() == old_tasks.len(),
                forall|j: int| 0 <= j < i ==> #[trigger] self.tasks@[j] == (if old_tasks[j].spec_should_execute(now) {
                    old_tasks[j].spec_execute(now).0
                } else {
                    old_tasks[j]
                }),
                forall|j: int| i <= j < self.tasks@.len() ==> #[trigger] self.tasks@[j] == old_tasks[j],
                commands@ == due_commands(old_tasks.take(i as int), now),
            decreases self.tasks@.len() - i,
        {
            assert(old_tasks.take(i + 1).drop_last() =~= old_tasks.take(i as int));
            assert(old_tasks.take(i + 1).last() == old_tasks[i as int]);
            if self.tasks[i].should_execute(now) {
                let c = self.tasks[i].execute(now);
                if let Some(command) = c {
                    commands.push(command);
                }
            }
            i = i + 1;
        }
        assert(self.tasks@ =~= ran_tasks(old_tasks, now));
        assert(old_tasks.take(old_tasks.len() as int) =~= old_tasks);
        commands
    }
}


/// When activity resets the display shutdown tasks at `now`, none of them
/// switches the display off at `now` (their timeouts being positive; every
/// such task carries the same id, the one `DisplayAutoShutdownTask::id`
/// gives).
pub proof fn law_reset_keeps_display_on(tasks: Seq<DisplayAutoShutdownTask>, now: Duration)
    requires
        forall|i: int| 0 <= i < tasks.len() ==> nanos((#[trigger] tasks[i]).timeout()) > 0,
        forall|i: int| 0 <= i < tasks.len() ==> (#[trigger] tasks[i]).spec_id() == display_auto_shutdown_task_id(),
    ensures
        due_commands(reset_tasks(tasks, display_auto_shutdown_task_id(), now), now) == Seq::<DisplayCommand>::empty(),
    decreases tasks.len(),
{
    let id = display_auto_shutdown_task_id();
    let r = reset_tasks(tasks, id, now);
    if tasks.len() > 0 {
        let rest = tasks.drop_last();
        assert(r.drop_last() =~= reset_tasks(rest, id, now));
        law_reset_keeps_display_on(rest, now);
        let t = tasks.last();
        assert(nanos(t.timeout()) > 0);
        assert(t.spec_id() == id);
        lemma_task_behaviour(t, now);
        lemma_task_behaviour(t.spec_reset(now), now);
        if t.spec_id() == id {
            assert(!t.spec_reset(now).spec_should_execute(now));
        } else {
            assert(r.last() == t);
        }
        assert(r.last() == (if t.spec_id() == id { t.spec_reset(now) } else { t }));
    }
}

} // verus!
