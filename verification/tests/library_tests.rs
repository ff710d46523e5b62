use chrono::{NaiveTime, Timelike};
use nanowave::background::database_existence_checker::needs_upsert;
use nanowave::background::database_updater::{item_row, map_media_type, metadata_rows};
use nanowave::background::database_upsert_item::DatabaseUpsertItem;
use nanowave::background::file_media_source::{
    build_location_full_path, filter_error_item, found_item, history_item_from_record,
    map_db_model_to_media_item, media_type_for_query,
};
use nanowave::background::media_source::{FindCommand, MediaSourceCommand};
use nanowave::background::file_media_source_playback_history::{latest_filter, upsert_plan, HistoryUpsert};
use nanowave::config::Config;
use nanowave::entity::{
    HistoryRecord, ItemMediaType, ItemModel, ItemRecord, JsonMetadataTag, JsonTagField, MetadataTag, TagField,
};
use nanowave::media_source::{
    MediaSourceChapter, MediaSourceHistoryItem, MediaSourceImageCodec, MediaSourceItem, MediaSourceMetadata, MediaSourcePicture, MediaType,
};
use nanowave::time::{duration_to_naive_time, naive_time_to_duration};
use std::time::Duration;

fn config() -> Config {
    Config::new(".nanowave/".to_string(), "media/".to_string())
}

fn tag(f: TagField, v: &str) -> MetadataTag {
    MetadataTag { tag_field: f, value: v.to_string() }
}

fn record(metadata: Vec<MetadataTag>, json: Vec<JsonMetadataTag>) -> ItemRecord {
    ItemRecord {
        id: 42,
        location: "/audiobooks/author/book.part1.m4b".to_string(),
        cover_hash: "00ff".to_string(),
        metadata,
        json,
    }
}

#[test]
fn config_cache_path() {
    let c = config();
    assert_eq!(c.cache_path, ".nanowave/.cache/");
    assert_eq!(Config::new("/data///".into(), "m".into()).cache_path, "/data/.cache/");
    assert_eq!(Config::new("".into(), "m".into()).cache_path, "/.cache/");
}

#[test]
fn location_full_path() {
    assert_eq!(build_location_full_path(&config(), "//music/a.mp3"), "media/music/a.mp3");
}

#[test]
fn item_title_from_location_without_tags() {
    let item = map_db_model_to_media_item(&config(), &record(vec![], vec![]), None);
    assert_eq!(item.id, "42");
    assert_eq!(item.title, "book");
    assert_eq!(item.metadata.title, Some("book".to_string()));
    assert_eq!(item.location, "media/audiobooks/author/book.part1.m4b");
    assert_eq!(item.media_type, MediaType::Unspecified);
    assert_eq!(
        item.metadata.cover,
        Some(MediaSourcePicture {
            cache_dir: ".nanowave/.cache/".to_string(),
            hash: "00ff".to_string(),
            codec: MediaSourceImageCodec::Jpeg
        })
    );
    assert!(item.metadata.chapters.is_empty());
}

#[test]
fn item_tags_last_wins() {
    let tags = vec![
        tag(TagField::Title, "First"),
        tag(TagField::Artist, "A"),
        tag(TagField::Title, "Second"),
        tag(TagField::Series, "S"),
        tag(TagField::Part, "2"),
    ];
    let item = map_db_model_to_media_item(&config(), &record(tags, vec![]), Some(Duration::from_secs(7)));
    assert_eq!(item.title, "Second");
    assert_eq!(item.metadata.artist, Some("A".to_string()));
    assert_eq!(item.metadata.series, Some("S".to_string()));
    assert_eq!(item.metadata.part, Some("2".to_string()));
    assert_eq!(item.metadata.album, None);
    assert_eq!(item.position, Some(Duration::from_secs(7)));
}

#[test]
fn item_chapters_from_last_parsed_row() {
    let a = vec![MediaSourceChapter::new("a".into(), Duration::ZERO, Duration::from_secs(5))];
    let b = vec![MediaSourceChapter::new("b".into(), Duration::ZERO, Duration::from_secs(9))];
    let json = vec![
        JsonMetadataTag { tag_field: JsonTagField::Chapters, parsed_chapters: Some(a) },
        JsonMetadataTag { tag_field: JsonTagField::Chapters, parsed_chapters: Some(b.clone()) },
        JsonMetadataTag { tag_field: JsonTagField::Chapters, parsed_chapters: None },
        JsonMetadataTag { tag_field: JsonTagField::Other, parsed_chapters: None },
    ];
    let item = map_db_model_to_media_item(&config(), &record(vec![], json), None);
    assert_eq!(item.metadata.chapters, b);
}

#[test]
fn negative_id_text() {
    let mut r = record(vec![], vec![]);
    r.id = -5;
    assert_eq!(map_db_model_to_media_item(&config(), &r, None).id, "-5");
}

#[test]
fn tag_rows_round_trip() {
    let meta = MediaSourceMetadata::new(
        Some("Artist".into()),
        Some("Title".into()),
        None,
        Some("Composer".into()),
        Some("Series".into()),
        None,
        Some("Genre".into()),
        None,
        vec![],
    );
    let rows = metadata_rows(&meta);
    let fields: Vec<TagField> = rows.iter().map(|t| t.tag_field).collect();
    assert_eq!(fields, vec![TagField::Genre, TagField::Artist, TagField::Title, TagField::Composer, TagField::Series]);
    let item = map_db_model_to_media_item(&config(), &record(rows, vec![]), None);
    assert_eq!(item.title, "Title");
    assert_eq!(item.metadata.artist, meta.artist);
    assert_eq!(item.metadata.composer, meta.composer);
    assert_eq!(item.metadata.series, meta.series);
    assert_eq!(item.metadata.genre, meta.genre);
    assert_eq!(item.metadata.album, None);
    assert_eq!(item.metadata.part, None);
}

#[test]
fn media_type_mapping() {
    assert_eq!(map_media_type(MediaType::Audiobook), ItemMediaType::Audiobook);
    assert_eq!(map_media_type(MediaType::Music), ItemMediaType::Music);
    assert_eq!(map_media_type(MediaType::Unspecified), ItemMediaType::Unspecified);
    assert_eq!(media_type_for_query("4"), ItemMediaType::Music);
    assert_eq!(media_type_for_query("2"), ItemMediaType::Audiobook);
    assert_eq!(media_type_for_query("42"), ItemMediaType::Unspecified);
    assert_eq!(media_type_for_query(""), ItemMediaType::Unspecified);
}

#[test]
fn error_item() {
    let e = filter_error_item();
    assert_eq!(e.title, "error");
    assert_eq!(e.id, "");
    assert_eq!(e.metadata, MediaSourceMetadata::empty());
}

#[test]
fn item_rows() {
    let item = MediaSourceItem {
        id: String::new(),
        location: "/music/x.flac".into(),
        title: "x".into(),
        media_type: MediaType::Music,
        metadata: MediaSourceMetadata::new(
            None, None, None, None, None, None, None,
            Some(MediaSourcePicture { cache_dir: "c".into(), hash: "abc".into(), codec: MediaSourceImageCodec::Png }),
            vec![],
        ),
        position: None,
    };
    let upsert = DatabaseUpsertItem {
        file: "media/music/x.flac".into(),
        file_id: "FileId(1)".into(),
        media_source_item: Some(item),
        model: Some(ItemModel { id: 9, date_modified: Duration::from_secs(1) }),
    };
    let row = item_row(&upsert, Duration::from_secs(500));
    assert_eq!(row.id, 9);
    assert_eq!(row.last_scan_random_key, "");
    assert_eq!(row.date_modified, Duration::from_secs(500));
    assert_eq!(row.location, "music/x.flac");
    assert_eq!(row.cover_hash, "abc");
    assert_eq!(row.media_type, ItemMediaType::Music);
    assert_eq!(row.file_id, "FileId(1)");

    let bare = DatabaseUpsertItem { file: "f".into(), file_id: "id".into(), media_source_item: None, model: None };
    let row = item_row(&bare, Duration::from_secs(7));
    assert_eq!(row.id, 0);
    assert_eq!(row.last_scan_random_key, "");
    assert_eq!(row.date_modified, Duration::from_secs(7));
    assert_eq!(row.location, "");
    assert_eq!(row.cover_hash, "");
    assert_eq!(row.media_type, ItemMediaType::Unspecified);
}

#[test]
fn upsert_needed() {
    let rec = Some(ItemModel { id: 1, date_modified: Duration::from_secs(100) });
    assert!(needs_upsert(Some(Duration::from_secs(101)), &rec));
    assert!(!needs_upsert(Some(Duration::from_secs(100)), &rec));
    assert!(!needs_upsert(Some(Duration::from_secs(50)), &rec));
    assert!(needs_upsert(None, &rec));
    assert!(needs_upsert(Some(Duration::from_secs(50)), &None));
}

#[test]
fn history_plans() {
    assert_eq!(latest_filter(""), None);
    assert_eq!(latest_filter("12"), Some("12".to_string()));
    assert_eq!(upsert_plan(Some("s1"), "s1"), HistoryUpsert::UpdateLatest);
    assert_eq!(upsert_plan(Some("s1"), "s2"), HistoryUpsert::CreateNew);
    assert_eq!(upsert_plan(None, "s2"), HistoryUpsert::CreateNew);
}

#[test]
fn naive_time_conversions() {
    let t = duration_to_naive_time(Duration::new(3_723, 5));
    assert_eq!(t.num_seconds_from_midnight(), 3_723);
    assert_eq!(t.nanosecond(), 5);
    // wraps around at 24 hours
    let t = duration_to_naive_time(Duration::new(86_400 + 10, 0));
    assert_eq!(t.num_seconds_from_midnight(), 10);
    assert_eq!(naive_time_to_duration(NaiveTime::from_hms_opt(1, 2, 3).unwrap()), Duration::from_secs(3_723));
    // a leap second counts as the second after
    let leap = NaiveTime::from_hms_nano_opt(23, 59, 59, 1_500_000_000).unwrap();
    assert_eq!(naive_time_to_duration(leap), Duration::new(86_400, 500_000_000));
    // round trip within a day
    let d = Duration::new(45_000, 123);
    assert_eq!(naive_time_to_duration(duration_to_naive_time(d)), d);
}

#[test]
fn found_item_with_position() {
    let rec = record(vec![], vec![]);
    let t = NaiveTime::from_hms_opt(0, 1, 0).unwrap();
    let found = found_item(&config(), Some(&rec), Some(t)).unwrap();
    assert_eq!(found.position, Some(Duration::from_secs(60)));
    assert_eq!(found_item(&config(), None, Some(t)), None);
    assert_eq!(found_item(&config(), Some(&rec), None).unwrap().position, None);
}

#[test]
fn history_item() {
    let rec = HistoryRecord {
        session_key: "k".into(),
        position: NaiveTime::from_hms_opt(0, 0, 30).unwrap(),
        date_modified: Duration::from_secs(1_700_000_000),
        item: record(vec![], vec![]),
    };
    let h = history_item_from_record(&config(), &rec);
    assert_eq!(h.session_key, "k");
    assert_eq!(h.position, Duration::from_secs(30));
    assert_eq!(h.item.position, Some(Duration::from_secs(30)));
    assert_eq!(h.date_modified, Duration::from_secs(1_700_000_000));
    assert_eq!(h.item.title, "book");
}

#[test]
fn cloned_item_keeps_every_field() {
    let mut meta = MediaSourceMetadata::empty();
    meta.title = Some("Book".to_string());
    meta.chapters = vec![MediaSourceChapter::new("One".to_string(), Duration::from_secs(0), Duration::from_secs(60))];
    meta.cover = Some(MediaSourcePicture {
        cache_dir: "cache/".to_string(),
        hash: "00ff".to_string(),
        codec: MediaSourceImageCodec::Png,
    });
    let item = MediaSourceItem {
        id: "7".to_string(),
        location: "audiobooks/book.m4b".to_string(),
        title: "Book".to_string(),
        media_type: MediaType::Audiobook,
        metadata: meta,
        position: Some(Duration::from_secs(5)),
    };
    assert_eq!(item.clone(), item);
    let entry = MediaSourceHistoryItem::new(item, "session".to_string(), Duration::from_secs(9), Duration::from_secs(100));
    assert_eq!(entry.clone(), entry);
}

#[test]
fn find_command_hands_its_answer_to_the_callback() {
    let (tx, rx) = std::sync::mpsc::channel();
    let command: MediaSourceCommand<fn(Vec<MediaSourceItem>), _> = MediaSourceCommand::Find(FindCommand {
        id: "7".to_string(),
        callback: move |found: Option<MediaSourceItem>| tx.send(found.is_none()).unwrap(),
    });
    match command {
        MediaSourceCommand::Find(find) => {
            assert_eq!(find.id, "7");
            (find.callback)(None);
        }
        MediaSourceCommand::Filter(_) => panic!("a lookup was asked for"),
    }
    assert!(rx.recv().unwrap());
}
