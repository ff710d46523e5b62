use chrono::NaiveTime;
use nanowave::background::database_updater::chapters_rows;
use nanowave::background::file_media_source::{found_item, history_item_from_record, map_db_model_to_media_item};
use nanowave::background::input_handler::InputHandler;
use nanowave::background::player::{already_loaded, seek_after_load};
use nanowave::background::scheduler::display_auto_shudown_task::DisplayAutoShutdownTask;
use nanowave::background::scheduler::scheduler::Scheduler;
use nanowave::config::Config;
use nanowave::entity::{HistoryRecord, ItemRecord, JsonTagField, MetadataTag, TagField};
use nanowave::input_event::{InputEvent, InputEventAction, InputEventButton, InputEventDevice};
use nanowave::media_source::{MediaSourceChapter, MediaSourceMetadata, MediaType};
use std::time::Duration;

fn config() -> Config {
    Config::new(".nanowave/".to_string(), "media/".to_string())
}

fn chapters() -> Vec<MediaSourceChapter> {
    vec![
        MediaSourceChapter::new("One".to_string(), Duration::from_secs(0), Duration::from_secs(60)),
        MediaSourceChapter::new("Two".to_string(), Duration::from_secs(60), Duration::from_secs(90)),
    ]
}

fn stored_record(meta: &MediaSourceMetadata) -> ItemRecord {
    ItemRecord {
        id: 3,
        location: "audiobooks/book.m4b".to_string(),
        cover_hash: "abcd".to_string(),
        metadata: vec![MetadataTag { tag_field: TagField::Artist, value: "Author".to_string() }],
        json: chapters_rows(meta),
    }
}

#[test]
fn chapters_row_written_only_with_chapters() {
    let mut meta = MediaSourceMetadata::empty();
    assert!(chapters_rows(&meta).is_empty());
    meta.chapters = chapters();
    let rows = chapters_rows(&meta);
    assert_eq!(rows.len(), 1);
    assert_eq!(rows[0].tag_field, JsonTagField::Chapters);
    assert_eq!(rows[0].parsed_chapters, Some(chapters()));
}

#[test]
fn chapters_round_trip_through_the_rows() {
    let mut meta = MediaSourceMetadata::empty();
    meta.chapters = chapters();
    let item = map_db_model_to_media_item(&config(), &stored_record(&meta), None);
    assert_eq!(item.metadata.chapters, chapters());
    let empty = map_db_model_to_media_item(&config(), &stored_record(&MediaSourceMetadata::empty()), None);
    assert!(empty.metadata.chapters.is_empty());
}

#[test]
fn found_item_is_the_whole_mapped_item() {
    let mut meta = MediaSourceMetadata::empty();
    meta.chapters = chapters();
    let rec = stored_record(&meta);
    let found = found_item(&config(), Some(&rec), None).unwrap();
    assert_eq!(found, map_db_model_to_media_item(&config(), &rec, None));
    assert_eq!(found.media_type, MediaType::Unspecified);
    assert_eq!(found.metadata.artist, Some("Author".to_string()));
    assert_eq!(found.metadata.title, Some("book".to_string()));
    assert_eq!(found.metadata.chapters, chapters());
    assert_eq!(found.location, "media/audiobooks/book.m4b");
}

#[test]
fn history_entry_holds_the_whole_mapped_item() {
    let mut meta = MediaSourceMetadata::empty();
    meta.chapters = chapters();
    let rec = HistoryRecord {
        session_key: "s".to_string(),
        position: NaiveTime::from_hms_opt(0, 2, 0).unwrap(),
        date_modified: Duration::from_secs(10),
        item: stored_record(&meta),
    };
    let h = history_item_from_record(&config(), &rec);
    assert_eq!(h.item, map_db_model_to_media_item(&config(), &rec.item, Some(Duration::from_secs(120))));
    assert_eq!(h.item.metadata.chapters, chapters());
}

#[test]
fn loading_skips_the_loaded_item_and_seeks_past_zero_only() {
    let loaded = "7".to_string();
    assert!(already_loaded(Some(&loaded), "7"));
    assert!(!already_loaded(Some(&loaded), "8"));
    assert!(!already_loaded(None, "7"));
    assert_eq!(seek_after_load(Duration::ZERO), None);
    assert_eq!(seek_after_load(Duration::from_millis(1)), Some(Duration::from_millis(1)));
}

#[test]
fn click_count_follows_presses() {
    let mut h = InputHandler::new();
    assert_eq!(h.click_count(), 0);
    h.handle_event(InputEvent::ButtonEvent(InputEventDevice::Headset, InputEventButton::PlayPause, InputEventAction::Press));
    assert_eq!(h.click_count(), 1);
    h.handle_event(InputEvent::ButtonEvent(InputEventDevice::Headset, InputEventButton::PlayPause, InputEventAction::Release));
    assert_eq!(h.click_count(), 1);
}

#[test]
fn add_task_chains() {
    let mut s = Scheduler::new();
    s.add_task(DisplayAutoShutdownTask::new(1_000, Duration::ZERO))
        .add_task(DisplayAutoShutdownTask::new(2_000, Duration::ZERO));
    assert_eq!(s.run_due_tasks(Duration::from_millis(1_500)).len(), 1);
}
