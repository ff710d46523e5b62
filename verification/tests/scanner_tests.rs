use nanowave::background::file_scanner::extension_filter;
use nanowave::background::metadata_retriever::{
    chapters_from_marks, extract_mp4_metadata, hash_text, map_encoding, media_item_for_file,
    media_item_from_parts, media_type_for_location, metadata_cache_path, metadata_from_tag, picture_for,
    relative_location, ChapterMark, Mp4Tags, PictureMimeType, TagValues,
};
use nanowave::database_wrapper::{database_path, DatabaseWrapper};
use nanowave::file_utils::filename_stem;
use nanowave::media_source::{MediaSourceImageCodec, MediaSourceMetadata, MediaSourcePicture, MediaType};
use std::time::Duration;

#[test]
fn extension_filter_is_case_insensitive() {
    let f = extension_filter(vec!["mp3", "flac", "wav", "M4B"]);
    assert!(f.matches("media/a/b.MP3"));
    assert!(f.matches("b.m4b"));
    assert!(f.matches("x/y.Flac"));
    assert!(!f.matches("x/y.ogg"));
    assert!(!f.matches("x/mp3"));
    assert!(!f.matches("x/.mp3"));
    assert!(f.matches_extension(Some("WAV")));
    assert!(!f.matches_extension(None));
}

#[test]
fn stems() {
    assert_eq!(filename_stem("a/b/book.m4b"), Some("book".to_string()));
    assert_eq!(filename_stem("a/b/book.part1.m4b"), Some("book.part1".to_string()));
    assert_eq!(filename_stem("a/.hidden"), Some(".hidden".to_string()));
    assert_eq!(filename_stem("a/.."), None);
}

#[test]
fn relative_locations_and_types() {
    assert_eq!(relative_location("media", "media//music/a.mp3"), "music/a.mp3");
    assert_eq!(relative_location("media/", "media/audiobooks/b.m4b"), "audiobooks/b.m4b");
    assert_eq!(relative_location("", "/x"), "x");
    assert_eq!(media_type_for_location("music/a.mp3"), MediaType::Music);
    assert_eq!(media_type_for_location("audiobooks/b.m4b"), MediaType::Audiobook);
    assert_eq!(media_type_for_location("musical/c.mp3"), MediaType::Unspecified);
    assert_eq!(media_type_for_location("music"), MediaType::Unspecified);
}

#[test]
fn scanned_items() {
    let meta = MediaSourceMetadata::empty();
    let item = media_item_for_file("media", "media/audiobooks/author/story.m4b", meta);
    assert_eq!(item.location, "audiobooks/author/story.m4b");
    assert_eq!(item.media_type, MediaType::Audiobook);
    assert_eq!(item.title, "story");
    assert_eq!(item.id, "");

    let mut meta = MediaSourceMetadata::empty();
    meta.title = Some("Tagged".into());
    let item = media_item_from_parts("media", "media/music/x.mp3", meta, Some("x".into()));
    assert_eq!(item.title, "Tagged");
    let item = media_item_from_parts("media", "media/music/x.mp3", MediaSourceMetadata::empty(), None);
    assert_eq!(item.title, "");
}

#[test]
fn cache_and_database_paths() {
    assert_eq!(metadata_cache_path("base//"), "base/cache/");
    assert_eq!(database_path(".nanowave/"), ".nanowave/nanowave.db");
    let w = DatabaseWrapper::new(".nanowave/".into(), false);
    assert_eq!(w.db_url(), "sqlite://.nanowave/nanowave.db?mode=rwc");
    assert!(w.needs_schema());
    assert!(!DatabaseWrapper::new("x".into(), true).needs_schema());
}

#[test]
fn chapters_follow_each_other() {
    let marks = vec![
        ChapterMark { title: "a".into(), start: Duration::ZERO },
        ChapterMark { title: "b".into(), start: Duration::from_secs(60) },
        ChapterMark { title: "c".into(), start: Duration::from_secs(150) },
    ];
    let c = chapters_from_marks(&marks, Duration::from_secs(200));
    assert_eq!(c.len(), 3);
    assert_eq!(c[0].duration, Duration::from_secs(60));
    assert_eq!(c[1].duration, Duration::from_secs(90));
    assert_eq!(c[2].duration, Duration::from_secs(50));
    assert_eq!(c[2].title, "c");
    assert_eq!(c[1].start, Duration::from_secs(60));
    assert!(chapters_from_marks(&vec![], Duration::from_secs(5)).is_empty());
}

#[test]
fn mp4_tags() {
    let mut meta = MediaSourceMetadata::empty();
    meta.series = Some("old".into());
    let tags = Mp4Tags {
        composer: Some("C".into()),
        genre: None,
        series: None,
        part: None,
        movement: Some("Movement".into()),
        movement_index: Some(3),
        chapters: vec![ChapterMark { title: "x".into(), start: Duration::ZERO }],
    };
    extract_mp4_metadata(&mut meta, tags, Duration::from_secs(10));
    assert_eq!(meta.series, Some("Movement".into()));
    assert_eq!(meta.part, Some("3".into()));
    assert_eq!(meta.composer, Some("C".into()));
    assert_eq!(meta.chapters[0].duration, Duration::from_secs(10));

    let mut meta = MediaSourceMetadata::empty();
    meta.part = Some("keep".into());
    let tags = Mp4Tags {
        composer: None,
        genre: Some("G".into()),
        series: Some("Series".into()),
        part: None,
        movement: Some("Movement".into()),
        movement_index: None,
        chapters: vec![],
    };
    extract_mp4_metadata(&mut meta, tags, Duration::from_secs(10));
    assert_eq!(meta.series, Some("Series".into()));
    assert_eq!(meta.part, Some("keep".into()));
    assert_eq!(meta.genre, Some("G".into()));
}

#[test]
fn encodings_and_hashes() {
    assert_eq!(map_encoding(Some(PictureMimeType::Png)), MediaSourceImageCodec::Png);
    assert_eq!(map_encoding(Some(PictureMimeType::Gif)), MediaSourceImageCodec::Gif);
    assert_eq!(map_encoding(Some(PictureMimeType::Other)), MediaSourceImageCodec::Unknown);
    assert_eq!(map_encoding(None), MediaSourceImageCodec::Unknown);
    assert_eq!(hash_text(0xbeef), "000000000000beef");
    assert_eq!(hash_text(u64::MAX), "ffffffffffffffff");
    let data = b"cover bytes";
    let p = picture_for("cache/", data, Some(PictureMimeType::Jpeg));
    assert_eq!(p.hash, format!("{:016x}", xxhash_rust::xxh3::xxh3_64(data)));
    assert_ne!(p.hash, format!("{:016x}", 0u64));
    assert_eq!(p.cache_dir, "cache/");
    assert_eq!(p.codec, MediaSourceImageCodec::Jpeg);
}

#[test]
fn metadata_from_tags() {
    assert_eq!(metadata_from_tag(None, Duration::ZERO), MediaSourceMetadata::empty());
    let pic = MediaSourcePicture { cache_dir: "c".into(), hash: "h".into(), codec: MediaSourceImageCodec::Png };
    let tag = TagValues {
        artist: Some("A".into()),
        title: Some("T".into()),
        album: None,
        pictures: vec![pic.clone(), MediaSourcePicture { cache_dir: "c".into(), hash: "2".into(), codec: MediaSourceImageCodec::Gif }],
        mp4: None,
    };
    let m = metadata_from_tag(Some(tag), Duration::ZERO);
    assert_eq!(m.cover, Some(pic));
    assert_eq!(m.artist, Some("A".into()));
    assert_eq!(m.title, Some("T".into()));
    assert!(m.chapters.is_empty());
}
