use nanowave::background::player::{
    current_chapter, history_update_due, next_chapter, next_target, plan_command, plan_tick,
    position_changed, previous_chapter, previous_target, seek_relative_target, select_output_device,
    sink_retry_due, status_text, PlayerAction, PlayerCommand, TickPlan,
};
use nanowave::media_source::{MediaSourceChapter, MediaSourceHistoryItem, MediaSourceItem, MediaSourceMetadata, MediaType};
use std::time::Duration;

fn secs(s: u64) -> Duration {
    Duration::from_secs(s)
}

/// Three chapters: 0-10s, 10-20s, 20-30s.
fn chapters() -> Vec<MediaSourceChapter> {
    vec![
        MediaSourceChapter::new("one".to_string(), secs(0), secs(10)),
        MediaSourceChapter::new("two".to_string(), secs(10), secs(10)),
        MediaSourceChapter::new("three".to_string(), secs(20), secs(10)),
    ]
}

#[test]
fn chapter_end_is_start_plus_duration() {
    assert_eq!(chapters()[1].end(), secs(20));
}

#[test]
fn next_chapter_is_first_starting_later() {
    let c = chapters();
    assert_eq!(next_chapter(&c, secs(5)), Some(1));
    assert_eq!(next_chapter(&c, secs(10)), Some(2));
    assert_eq!(next_chapter(&c, secs(25)), None);
    assert_eq!(next_target(&c, secs(5)), Some(secs(10)));
    assert_eq!(next_target(&c, secs(25)), None);
}

#[test]
fn current_chapter_first_spanning() {
    let c = chapters();
    assert_eq!(current_chapter(&c, secs(15)), Some(1));
    // a boundary belongs to the earlier chapter
    assert_eq!(current_chapter(&c, secs(10)), Some(0));
    assert_eq!(current_chapter(&c, secs(31)), None);
    assert_eq!(current_chapter(&vec![], secs(1)), None);
}

#[test]
fn previous_chapter_before_current() {
    let c = chapters();
    assert_eq!(previous_chapter(&c, secs(15)), Some(0));
    assert_eq!(previous_chapter(&c, secs(5)), None);
    // past all chapters: the last one
    assert_eq!(previous_chapter(&c, secs(40)), Some(2));
}

#[test]
fn previous_target_rules() {
    let c = chapters();
    // more than three seconds in: back to the start of the chapter
    assert_eq!(previous_target(&c, secs(15)), secs(10));
    // within three seconds: the chapter before
    assert_eq!(previous_target(&c, Duration::from_millis(12_000)), secs(0));
    // exactly three seconds in counts as within
    assert_eq!(previous_target(&c, secs(13)), secs(0));
    // in the first chapter, within three seconds: the beginning
    assert_eq!(previous_target(&c, secs(2)), secs(0));
    // without chapters: the beginning
    assert_eq!(previous_target(&vec![], secs(100)), secs(0));
}

#[test]
fn seek_relative_clamps_at_zero() {
    assert_eq!(seek_relative_target(secs(10), -15_000), secs(0));
    assert_eq!(seek_relative_target(secs(10), 15_000), secs(25));
    assert_eq!(seek_relative_target(Duration::from_micros(10_500_700), 0), Duration::from_millis(10_500));
}

#[test]
fn status_texts() {
    assert_eq!(status_text(true), "paused");
    assert_eq!(status_text(false), "playing");
}

#[test]
fn timing_decisions() {
    assert!(history_update_due(secs(100), secs(106)));
    assert!(!history_update_due(secs(100), secs(105)));
    assert!(sink_retry_due(secs(100), Duration::from_millis(102_001)));
    assert!(!sink_retry_due(secs(100), secs(102)));
    assert!(position_changed(secs(1), secs(2)));
    assert!(!position_changed(secs(2), secs(2)));
}

#[test]
fn device_selection() {
    let names: Vec<String> = vec!["hdmi".into(), "usb".into(), "default".into(), "usb".into()];
    assert_eq!(select_output_device(&names, &"default".to_string(), &"usb".to_string()), Some(2));
    assert_eq!(select_output_device(&names, &"none".to_string(), &"usb".to_string()), Some(3));
    assert_eq!(select_output_device(&names, &"none".to_string(), &"other".to_string()), Some(0));
    assert_eq!(select_output_device(&vec![], &"a".to_string(), &"b".to_string()), None);
}

#[test]
fn plan_next_and_previous() {
    let c = chapters();
    assert_eq!(plan_command(PlayerCommand::Next, &c, secs(5)), vec![PlayerAction::SeekAndReport(secs(10))]);
    assert_eq!(plan_command(PlayerCommand::Next, &c, secs(25)), vec![PlayerAction::SkipTrack]);
    assert_eq!(plan_command(PlayerCommand::Previous, &c, secs(25)), vec![PlayerAction::SeekAndReport(secs(20))]);
    assert_eq!(plan_command(PlayerCommand::SeekRelative(-3_000), &c, secs(25)), vec![PlayerAction::Seek(secs(22))]);
}

#[test]
fn plan_simple_commands() {
    let c = chapters();
    assert_eq!(plan_command(PlayerCommand::Toggle, &c, secs(0)), vec![PlayerAction::TogglePlayback, PlayerAction::ReportStatus]);
    assert_eq!(plan_command(PlayerCommand::Stop, &c, secs(0)), vec![PlayerAction::Stop]);
    assert_eq!(plan_command(PlayerCommand::Rewind, &c, secs(0)), vec![PlayerAction::StartRepeat(-15_000)]);
    assert_eq!(plan_command(PlayerCommand::FastForward, &c, secs(0)), vec![PlayerAction::StartRepeat(15_000)]);
    assert_eq!(plan_command(PlayerCommand::SeekTo(secs(3)), &c, secs(0)), vec![]);
    assert_eq!(
        plan_command(PlayerCommand::PlayMedia("7".into(), secs(4)), &c, secs(0)),
        vec![PlayerAction::Load("7".into(), secs(4)), PlayerAction::Play, PlayerAction::ReportStatus]
    );
    assert_eq!(
        plan_command(PlayerCommand::Update("9".into()), &c, secs(0)),
        vec![PlayerAction::LoadThenToggle("9".into()), PlayerAction::ReportStatus]
    );
}

#[test]
fn plan_restore_session() {
    let item = MediaSourceItem {
        id: "12".into(),
        location: "a.m4b".into(),
        title: "a".into(),
        media_type: MediaType::Audiobook,
        metadata: MediaSourceMetadata::empty(),
        position: None,
    };
    let h = MediaSourceHistoryItem::new(item, "session".into(), secs(42), secs(1000));
    assert_eq!(
        plan_command(PlayerCommand::RestoreLastSession(h), &vec![], secs(0)),
        vec![
            PlayerAction::AdoptSession("session".into()),
            PlayerAction::Load("12".into(), secs(42)),
            PlayerAction::ReportStatus
        ]
    );
}

#[test]
fn tick_plans() {
    assert_eq!(
        plan_tick(secs(3), secs(2), false, true, secs(100), secs(106)),
        TickPlan { report_position: true, write_history: true }
    );
    assert_eq!(
        plan_tick(secs(3), secs(3), true, true, secs(100), secs(106)),
        TickPlan { report_position: false, write_history: false }
    );
    assert_eq!(
        plan_tick(secs(3), secs(2), false, false, secs(100), secs(106)),
        TickPlan { report_position: false, write_history: false }
    );
}
