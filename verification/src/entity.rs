//! The rows the media library keeps in its database: an item with its tag
//! rows and JSON rows.
use vstd::prelude::*;
use std::time::Duration;
use chrono::NaiveTime;
use crate::media_source::MediaSourceChapter;

verus! {

/// The kind of media an item row records.
#[derive(Debug, Clone, Copy, PartialEq, Eq, Structural)]
pub enum ItemMediaType {
    Audiobook,
    Music,
    Unspecified,
}

/// The tag a tag row holds.
#[derive(Debug, Clone, Copy, PartialEq, Eq, Structural)]
pub enum TagField {
    Title,
    Genre,
    Artist,
    Album,
    Composer,
    Series,
    Part,
}

/// One tag of an item.
#[derive(Debug, PartialEq, Eq)]
pub struct MetadataTag {
    pub tag_field: TagField,
    pub value: String,
}

/// What a JSON row holds.
#[derive(Debug, Clone, Copy, PartialEq, Eq, Structural)]
pub enum JsonTagField {
    Chapters,
    Other,
}

/// A JSON row of an item, with the chapters its value parses to (`None`
/// when it does not parse as a chapter list).
#[derive(Debug, PartialEq, Eq)]
pub struct JsonMetadataTag {
    pub tag_field: JsonTagField,
    pub parsed_chapters: Option<Vec<MediaSourceChapter>>,
}

/// An item row with its tag rows and JSON rows.
#[derive(Debug, PartialEq, Eq)]
pub struct ItemRecord {
    pub id: i32,
    pub location: String,
    pub cover_hash: String,
    pub metadata: Vec<MetadataTag>,
    pub json: Vec<JsonMetadataTag>,
}


/// An item row as stored: its id and when it was last written (a time since
/// the Unix epoch).
#[derive(Debug, PartialEq, Eq)]
pub struct ItemModel {
    pub id: i32,
    pub date_modified: Duration,
}

/// The item row to write for a file: id 0 for a new row; the key of the
/// last scan that saw it; when it was written (a time since the Unix epoch).
#[derive(Debug, PartialEq, Eq)]
pub struct ItemRow {
    pub id: i32,
    pub file_id: String,
    pub media_type: ItemMediaType,
    pub location: String,
    pub cover_hash: String,
    pub last_scan_random_key: String,
    pub date_modified: Duration,
}


/// A playback history row with its item: the listening session, the
/// position reached (as a time of day), when it was written (a time since
/// the Unix epoch) and the item.
#[derive(Debug, PartialEq, Eq)]
pub struct HistoryRecord {
    pub session_key: String,
    pub position: NaiveTime,
    pub date_modified: Duration,
    pub item: ItemRecord,
}

} // verus!
