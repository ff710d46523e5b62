use nanowave::background::display_controller::{DisplayCommand, DisplayController};
use nanowave::background::scheduler::display_auto_shudown_task::DisplayAutoShutdownTask;
use nanowave::background::scheduler::scheduler::{Scheduler, SchedulerEvent};
use nanowave::background::scheduler::scheduler_task_trait::SchedulerTaskTrait;
use nanowave::background::scheduler::scheduler_task_type::SchedulerTaskType;
use nanowave::background::scheduler::{Scheduler as DisplayOffScheduler, SchedulerEvent as TimerEvent};
use std::time::Duration;

fn at(s: u64) -> Duration {
    Duration::from_secs(s)
}

#[test]
fn display_state_from_file() {
    let d = DisplayController::new();
    assert!(!d.is_display_on(Some("0\n".into())));
    assert!(!d.is_display_on(Some(" \t0 ".into())));
    assert!(d.is_display_on(Some("1\n".into())));
    assert!(d.is_display_on(Some("00".into())));
    assert!(d.is_display_on(Some("".into())));
    assert!(d.is_display_on(None));
}

#[test]
fn switch_then_read_back() {
    let d = DisplayController::new();
    for on in [true, false] {
        assert_eq!(d.is_display_on(Some(d.switch_value(on))), on);
    }
    assert_eq!(d.switch_value(true), "1");
    assert_eq!(d.switch_value(false), "0");
}

#[test]
fn display_command_targets() {
    let d = DisplayController::new();
    assert_eq!(d.command_target(DisplayCommand::TurnOff, true), Some(false));
    assert_eq!(d.command_target(DisplayCommand::TurnOn, false), Some(true));
    assert_eq!(d.command_target(DisplayCommand::Toggle, true), Some(false));
    assert_eq!(d.command_target(DisplayCommand::Toggle, false), Some(true));
    assert_eq!(d.command_target(DisplayCommand::ChangeBrightness, true), None);
}

#[test]
fn auto_shutdown_task() {
    let mut t = DisplayAutoShutdownTask::new(60_000, at(1000));
    assert_eq!(t.id(), DisplayAutoShutdownTask::id());
    assert_eq!(t.task_type(), SchedulerTaskType::Permanent);
    assert!(!t.should_execute(at(1059)));
    assert!(t.should_execute(at(1060)));
    assert!(!t.should_execute(at(999)));
    assert_eq!(t.execute(at(1059)), None);
    assert_eq!(t.execute(at(1060)), Some(DisplayCommand::TurnOff));
    // reset by running: not again before the timeout passes anew
    assert!(!t.should_execute(at(1100)));
    assert!(t.should_execute(at(1120)));
    t.reset(at(1200));
    assert!(!t.should_execute(at(1259)));
}

#[test]
fn scheduler_resets_by_id_and_runs_due_tasks() {
    let mut s = Scheduler::new();
    s.add_task(DisplayAutoShutdownTask::new(60_000, at(0)));
    assert_eq!(s.run_due_tasks(at(30)), vec![]);
    s.handle_event(SchedulerEvent::Reset(DisplayAutoShutdownTask::id()), at(50));
    assert_eq!(s.run_due_tasks(at(70)), vec![]);
    s.handle_event(SchedulerEvent::Reset("other".into()), at(100));
    assert_eq!(s.run_due_tasks(at(110)), vec![DisplayCommand::TurnOff]);
    assert_eq!(s.run_due_tasks(at(111)), vec![]);
}

#[test]
fn display_off_timer() {
    let s = DisplayOffScheduler::new();
    let mut timer = s.start_timer(at(0));
    assert_eq!(timer.tick(at(30)), None);
    assert_eq!(timer.tick(at(31)), Some(DisplayCommand::TurnOff));
    assert_eq!(timer.tick(at(40)), None);
    // a reset leaves the timer running from the last switch-off
    timer.handle_event(TimerEvent::ResetTimer, at(50));
    assert_eq!(timer.tick(at(61)), None);
    assert_eq!(timer.tick(at(62)), Some(DisplayCommand::TurnOff));
}
