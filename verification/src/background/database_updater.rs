//! What is written to the database for a scanned file.
use vstd::prelude::*;
use std::time::Duration;
use crate::background::database_upsert_item::DatabaseUpsertItem;
use crate::entity::{ItemMediaType, ItemRow, JsonMetadataTag, JsonTagField, MetadataTag, TagField};
use crate::text::{trim_start_char, trim_start_matches_char};
use crate::media_source::{copy_chapters, MediaSourceMetadata, MediaType};

verus! {

/// The database's kind of media for an item's.
pub fn map_media_type(media_type: MediaType) -> (r: ItemMediaType)
    ensures
        r == (match media_type {
            MediaType::Audiobook => ItemMediaType::Audiobook,
            MediaType::Music => ItemMediaType::Music,
            MediaType::Unspecified => ItemMediaType::Unspecified,
        }),
{
    match media_type {
        MediaType::Audiobook => ItemMediaType::Audiobook,
        MediaType::Music => ItemMediaType::Music,
        _ => ItemMediaType::Unspecified,
    }
}

/// The view of an optional string.
pub open spec fn opt_view(o: Option<String>) -> Option<Seq<char>> {
    match o {
        Some(s) => Some(s@),
        None => None,
    }
}

/// A tag row and its content.
pub open spec fn tag_view(t: MetadataTag) -> (TagField, Seq<char>) {
    (t.tag_field, t.value@)
}

/// The row for one tag, when the tag is set.
pub open spec fn tag_row(field: TagField, value: Option<String>) -> Seq<(TagField, Seq<char>)> {
    match value {
        Some(v) => seq![(field, v@)],
        None => Seq::empty(),
    }
}

/// The tag rows written for an item's tags: genre, artist, title, album,
/// composer, series and part, each one when it is set.
pub open spec fn metadata_rows_spec(meta: MediaSourceMetadata) -> Seq<(TagField, Seq<char>)> {
    tag_row(TagField::Genre, meta.genre) + tag_row(TagField::Artist, meta.artist)
        + tag_row(TagField::Title, meta.title) + tag_row(TagField::Album, meta.album)
        + tag_row(TagField::Composer, meta.composer) + tag_row(TagField::Series, meta.series)
        + tag_row(TagField::Part, meta.part)
}

/// Adds the row for one tag when the tag is set.
fn add_metadata(metadata: &mut Vec<MetadataTag>, tag_field: TagField, value: &Option<String>)
    ensures
        final(metadata)@.map_values(|t: MetadataTag| tag_view(t))
            == old(metadata)@.map_values(|t: MetadataTag| tag_view(t)) + tag_row(tag_field, *value),
{
    let ghost before = metadata@.map_values(|t: MetadataTag| tag_view(t));
    match value {
        Some(v) => {
            metadata.push(MetadataTag { tag_field, value: v.clone() });
            assert(metadata@.map_values(|t: MetadataTag| tag_view(t)) =~= before + tag_row(tag_field, *value));
        },
        None => {
            assert(metadata@.map_values(|t: MetadataTag| tag_view(t)) =~= before + tag_row(tag_field, *value));
        },
    }
}

/// The tag rows for an item's tags.
pub fn metadata_rows(meta: &MediaSourceMetadata) -> (r: Vec<MetadataTag>)
    ensures
        r@.map_values(|t: MetadataTag| tag_view(t)) == metadata_rows_spec(*meta),
{
    let mut rows: Vec<MetadataTag> = Vec::new();
    assert(rows@.map_values(|t: MetadataTag| tag_view(t)) =~= Seq::<(TagField, Seq<char>)>::empty());
    add_metadata(&mut rows, TagField::Genre, &meta.genre);
    add_metadata(&mut rows, TagField::Artist, &meta.artist);
    add_metadata(&mut rows, TagField::Title, &meta.title);
    add_metadata(&mut rows, TagField::Album, &meta.album);
    add_metadata(&mut rows, TagField::Composer, &meta.composer);
    add_metadata(&mut rows, TagField::Series, &meta.series);
    add_metadata(&mut rows, TagField::Part, &meta.part);
    assert(Seq::<(TagField, Seq<char>)>::empty() + tag_row(TagField::Genre, meta.genre) =~= tag_row(TagField::Genre, meta.genre));
    rows
}

/// The JSON rows written for an item's tags: one chapter-list row holding
/// its chapters when it has any, none otherwise.
pub open spec fn chapters_rows_spec(meta: MediaSourceMetadata, rows: Seq<JsonMetadataTag>) -> bool {
    if meta.chapters@.len() > 0 {
        &&& rows.len() == 1
        &&& rows[0].tag_field == JsonTagField::Chapters
        &&& rows[0].parsed_chapters matches Some(c) && c@ == meta.chapters@
    } else {
        rows.len() == 0
    }
}

/// The JSON rows for an item's chapters. (The chapter list is stored as JSON
/// text; the row holds the list it encodes.)
pub fn chapters_rows(meta: &MediaSourceMetadata) -> (r: Vec<JsonMetadataTag>)
    ensures
        chapters_rows_spec(*meta, r@),
{
    let mut rows: Vec<JsonMetadataTag> = Vec::new();
    if meta.chapters.len() > 0 {
        rows.push(JsonMetadataTag {
            tag_field: JsonTagField::Chapters,
            parsed_chapters: Some(copy_chapters(&meta.chapters)),
        });
    }
    rows
}

/// The item row written at `now` for a scanned file: its stored id (0 for
/// a new row), its file id, its kind of media, its location without leading
/// slashes, the hash of its cover (empty without one), an empty scan key and
/// `now` as the time it was written. A file whose tags were not read is
/// written as unspecified media at an empty location.
pub open spec fn item_row_spec(upsert: DatabaseUpsertItem, now: Duration, r: ItemRow) -> bool {
    &&& r.id == (match upsert.model {
        Some(m) => m.id,
        None => 0,
    })
    &&& r.file_id@ == upsert.file_id@
    &&& r.last_scan_random_key@ == Seq::<char>::empty()
    &&& r.date_modified == now
    &&& match upsert.media_source_item {
        Some(item) => {
            &&& r.media_type == (match item.media_type {
                MediaType::Audiobook => ItemMediaType::Audiobook,
                MediaType::Music => ItemMediaType::Music,
                MediaType::Unspecified => ItemMediaType::Unspecified,
            })
            &&& r.location@ == trim_start_char(item.location@, '/')
            &&& r.cover_hash@ == (match item.metadata.cover {
                Some(c) => c.hash@,
                None => Seq::empty(),
            })
        },
        None => {
            &&& r.media_type == ItemMediaType::Unspecified
            &&& r.location@ == Seq::<char>::empty()
            &&& r.cover_hash@ == Seq::<char>::empty()
        },
    }
}

/// The item row to write at `now` for a scanned file.
pub fn item_row(upsert: &DatabaseUpsertItem, now: Duration) -> (r: ItemRow)
    ensures
        item_row_spec(*upsert, now, r),
{
    let id = match &upsert.model {
        Some(m) => m.id,
        None => 0,
    };
    let file_id = upsert.file_id.clone();
    match &upsert.media_source_item {
        Some(item) => {
            let cover_hash = match &item.metadata.cover {
                Some(c) => c.hash.clone(),
                None => String::new(),
            };
            ItemRow {
                id,
                file_id,
                media_type: map_media_type(item.media_type),
                location: trim_start_matches_char(item.location.as_str(), '/'),
                cover_hash,
                last_scan_random_key: String::new(),
                date_modified: now,
            }
        },
        None => {
            ItemRow {
                id,
                file_id,
                media_type: map_media_type(MediaType::Unspecified),
                location: String::new(),
                cover_hash: String::new(),
                last_scan_random_key: String::new(),
                date_modified: now,
            }
        },
    }
}

} // verus!
