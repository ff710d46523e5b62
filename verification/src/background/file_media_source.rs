//! The media library read back from the database: items, their tags, cover
//! and chapters.
use vstd::prelude::*;
use std::time::Duration;
use crate::background::database_updater::{chapters_rows_spec, metadata_rows_spec, opt_view, tag_row, tag_view};
use crate::config::Config;
use crate::entity::{HistoryRecord, ItemMediaType, ItemRecord, JsonMetadataTag, JsonTagField, MetadataTag, TagField};
use crate::media_source::{
    copy_chapters, MediaSourceChapter, MediaSourceHistoryItem, MediaSourceImageCodec, MediaSourceItem, MediaSourceMetadata,
    MediaSourcePicture, MediaType,
};
use chrono::NaiveTime;
use crate::time::{naive_time_to_duration, nanos, spec_nanosecond, spec_num_seconds_from_midnight};
use crate::text::{
    str_equals,
    after_last, after_last_char, before_first, before_first_char, chars_of, int_text,
    join_path, join_path_spec, push_int, trim_start_char, trim_start_matches_char,
};

verus! {

/// The value of the last row for tag `f`, if there is one.
pub open spec fn last_tag(tags: Seq<(TagField, Seq<char>)>, f: TagField) -> Option<Seq<char>>
    decreases tags.len(),
{
    if tags.len() == 0 {
        None
    } else if tags.last().0 == f {
        Some(tags.last().1)
    } else {
        last_tag(tags.drop_last(), f)
    }
}

/// The chapters of the last JSON row that holds a chapter list, if any.
pub open spec fn last_chapters(json: Seq<JsonMetadataTag>) -> Option<Seq<MediaSourceChapter>>
    decreases json.len(),
{
    if json.len() == 0 {
        None
    } else if json.last().tag_field == JsonTagField::Chapters && json.last().parsed_chapters is Some {
        Some(json.last().parsed_chapters->0@)
    } else {
        last_chapters(json.drop_last())
    }
}

/// The title a location gives: the file name without anything from its
/// first dot on.
pub open spec fn location_title(location: Seq<char>) -> Seq<char> {
    before_first(after_last(location, '/'), '.')
}

/// The tag rows of an item as pairs.
pub open spec fn record_tags(i: ItemRecord) -> Seq<(TagField, Seq<char>)> {
    i.metadata@.map_values(|t: MetadataTag| tag_view(t))
}

/// The title of an item: its last title row, else the title its location
/// gives.
pub open spec fn record_title(i: ItemRecord) -> Seq<char> {
    match last_tag(record_tags(i), TagField::Title) {
        Some(t) => t,
        None => location_title(i.location@),
    }
}

/// Where a stored location is on disk: below the media directory.
pub open spec fn full_location(media_path: Seq<char>, location: Seq<char>) -> Seq<char> {
    join_path_spec(media_path, trim_start_char(location, '/'))
}

/// Adding a row: the last row for `f` is the new one if it is for `f`.
pub proof fn lemma_last_tag_step(tags: Seq<(TagField, Seq<char>)>, i: int, f: TagField)
    requires
        0 <= i < tags.len(),
    ensures
        last_tag(tags.take(i + 1), f) == (if tags[i].0 == f {
            Some(tags[i].1)
        } else {
            last_tag(tags.take(i), f)
        }),
{
    assert(tags.take(i + 1).drop_last() =~= tags.take(i));
}

/// Adding a JSON row: the last chapter list is the new row's if it has one.
pub proof fn lemma_last_chapters_step(json: Seq<JsonMetadataTag>, i: int)
    requires
        0 <= i < json.len(),
    ensures
        last_chapters(json.take(i + 1)) == (if json[i].tag_field == JsonTagField::Chapters
            && json[i].parsed_chapters is Some {
            Some(json[i].parsed_chapters->0@)
        } else {
            last_chapters(json.take(i))
        }),
{
    assert(json.take(i + 1).drop_last() =~= json.take(i));
}

/// A copy of a string.
fn copy_string(s: &String) -> (r: String)
    ensures
        r@ == s@,
{
    s.clone()
}

/// The chapters stored in an item's JSON rows: those of the last row that
/// holds a chapter list, else none.
pub open spec fn stored_chapters(json: Seq<JsonMetadataTag>) -> Seq<MediaSourceChapter> {
    match last_chapters(json) {
        Some(c) => c,
        None => Seq::<MediaSourceChapter>::empty(),
    }
}

/// `r` is the library item for the item row `i`, apart from where its
/// playback stands: its id, location on disk, title, kind of media, tags,
/// cover and chapters.
pub open spec fn mapped_item(config: Config, i: ItemRecord, r: MediaSourceItem) -> bool {
    &&& r.id@ == int_text(i.id as int)
    &&& r.location@ == full_location(config.media_path@, i.location@)
    &&& r.title@ == record_title(i)
    &&& r.media_type == MediaType::Unspecified
    &&& opt_view(r.metadata.title) == Some(record_title(i))
    &&& opt_view(r.metadata.artist) == last_tag(record_tags(i), TagField::Artist)
    &&& opt_view(r.metadata.album) == last_tag(record_tags(i), TagField::Album)
    &&& opt_view(r.metadata.genre) == last_tag(record_tags(i), TagField::Genre)
    &&& opt_view(r.metadata.composer) == last_tag(record_tags(i), TagField::Composer)
    &&& opt_view(r.metadata.series) == last_tag(record_tags(i), TagField::Series)
    &&& opt_view(r.metadata.part) == last_tag(record_tags(i), TagField::Part)
    &&& r.metadata.cover matches Some(c) && c.cache_dir@ == config.cache_path@
        && c.hash@ == i.cover_hash@ && c.codec == MediaSourceImageCodec::Jpeg
    &&& r.metadata.chapters@ == stored_chapters(i.json@)
}

/// Where a stored location is on disk.
pub fn build_location_full_path(config: &Config, location: &str) -> (r: String)
    ensures
        r@ == full_location(config.media_path@, location@),
{
    let rel = trim_start_matches_char(location, '/');
    join_path(config.media_path.as_str(), rel.as_str())
}

/// The library item for an item row: its title, tags, cover and chapters,
/// with `position` as where its playback stands.
pub fn map_db_model_to_media_item(config: &Config, i: &ItemRecord, position: Option<Duration>) -> (r: MediaSourceItem)
    ensures
        mapped_item(*config, *i, r),
        r.position == position,
{
    let cover = Some(MediaSourcePicture {
        cache_dir: copy_string(&config.cache_path),
        hash: copy_string(&i.cover_hash),
        codec: MediaSourceImageCodec::Jpeg,
    });
    let filename = after_last_char(i.location.as_str(), '/');
    let mut title = before_first_char(filename.as_str(), '.');
    let mut genre: Option<String> = None;
    let mut artist: Option<String> = None;
    let mut album: Option<String> = None;
    let mut composer: Option<String> = None;
    let mut series: Option<String> = None;
    let mut part: Option<String> = None;
    let ghost tags = record_tags(*i);
    let mut k: usize = 0;
    while k < i.metadata.len()
        invariant
            k <= i.metadata@.len(),
            tags == record_tags(*i),
            title@ == (match last_tag(tags.take(k as int), TagField::Title) {
                Some(t) => t,
                None => location_title(i.location@),
            }),
            opt_view(genre) == last_tag(tags.take(k as int), TagField::Genre),
            opt_view(artist) == last_tag(tags.take(k as int), TagField::Artist),
            opt_view(album) == last_tag(tags.take(k as int), TagField::Album),
            opt_view(composer) == last_tag(tags.take(k as int), TagField::Composer),
            opt_view(series) == last_tag(tags.take(k as int), TagField::Series),
            opt_view(part) == last_tag(tags.take(k as int), TagField::Part),
        decreases i.metadata@.len() - k,
    {
        let tag = &i.metadata[k];
        proof {
            assert(tags[k as int] == tag_view(*tag));
            lemma_last_tag_step(tags, k as int, TagField::Title);
            lemma_last_tag_step(tags, k as int, TagField::Genre);
            lemma_last_tag_step(tags, k as int, TagField::Artist);
            lemma_last_tag_step(tags, k as int, TagField::Album);
            lemma_last_tag_step(tags, k as int, TagField::Composer);
            lemma_last_tag_step(tags, k as int, TagField::Series);
            lemma_last_tag_step(tags, k as int, TagField::Part);
        }
        match tag.tag_field {
            TagField::Title => title = copy_string(&tag.value),
            TagField::Genre => genre = Some(copy_string(&tag.value)),
            TagField::Artist => artist = Some(copy_string(&tag.value)),
            TagField::Album => album = Some(copy_string(&tag.value)),
            TagField::Composer => composer = Some(copy_string(&tag.value)),
            TagField::Series => series = Some(copy_string(&tag.value)),
            TagField::Part => part = Some(copy_string(&tag.value)),
        }
        k = k + 1;
    }
    assert(tags.take(i.metadata@.len() as int) =~= tags);

    let mut chapters: Vec<MediaSourceChapter> = Vec::new();
    let mut j: usize = 0;
    while j < i.json.len()
        invariant
            j <= i.json@.len(),
            chapters@ == (match last_chapters(i.json@.take(j as int)) {
                Some(c) => c,
                None => Seq::<MediaSourceChapter>::empty(),
            }),
        decreases i.json@.len() - j,
    {
        proof {
            lemma_last_chapters_step(i.json@, j as int);
        }
        let json_tag = &i.json[j];
        match json_tag.tag_field {
            JsonTagField::Chapters => {
                if let Some(chaps) = &json_tag.parsed_chapters {
                    chapters = copy_chapters(chaps);
                }
            },
            _ => {},
        }
        j = j + 1;
    }
    assert(i.json@.take(i.json@.len() as int) =~= i.json@);

    let mut id = String::new();
    push_int(&mut id, i.id as i64);
    let metadata_title = copy_string(&title);
    MediaSourceItem {
        id,
        location: build_location_full_path(config, i.location.as_str()),
        title,
        media_type: MediaType::Unspecified,
        metadata: MediaSourceMetadata {
            title: Some(metadata_title),
            artist,
            album,
            genre,
            composer,
            series,
            part,
            cover,
            chapters,
        },
        position,
    }
}


/// The kind of media a library query asks for: "4" music, "2" audiobooks,
/// anything else unspecified media.
pub open spec fn query_media_type(query: Seq<char>) -> ItemMediaType {
    if query == "4"@ {
        ItemMediaType::Music
    } else if query == "2"@ {
        ItemMediaType::Audiobook
    } else {
        ItemMediaType::Unspecified
    }
}

/// The kind of media a library query asks for.
pub fn media_type_for_query(query: &str) -> (r: ItemMediaType)
    ensures
        r == query_media_type(query@),
{
    if str_equals(query, "4") {
        ItemMediaType::Music
    } else if str_equals(query, "2") {
        ItemMediaType::Audiobook
    } else {
        ItemMediaType::Unspecified
    }
}

/// The single item a query answers with when the library cannot be read: no
/// id, no location, the title "error", no tags.
pub fn filter_error_item() -> (r: MediaSourceItem)
    ensures
        r.id@ == Seq::<char>::empty(),
        r.location@ == Seq::<char>::empty(),
        r.title@ == "error"@,
        r.media_type == MediaType::Unspecified,
        r.metadata.is_empty_spec(),
        r.position is None,
{
    MediaSourceItem {
        id: String::new(),
        location: String::new(),
        title: String::from_str("error"),
        media_type: MediaType::Unspecified,
        metadata: MediaSourceMetadata::empty(),
        position: None,
    }
}

/// The position a playback history row records, as a duration since the
/// start of the item.
pub open spec fn history_position(t: NaiveTime) -> int {
    spec_num_seconds_from_midnight(t) as int * 1_000_000_000 + spec_nanosecond(t) as int
}

/// The answer to finding an item: the item found (if any), with playback at
/// the position of its latest history row (if it has one).
pub fn found_item(config: &Config, item: Option<&ItemRecord>, latest_position: Option<NaiveTime>) -> (r: Option<MediaSourceItem>)
    ensures
        item is None ==> r is None,
        item matches Some(i) ==> (r matches Some(found) && {
            &&& mapped_item(*config, *i, found)
            &&& (latest_position is None ==> found.position is None)
            &&& (latest_position matches Some(t) ==> (found.position matches Some(p)
                && nanos(p) == history_position(t)))
        }),
{
    let position = match latest_position {
        Some(t) => Some(naive_time_to_duration(t)),
        None => None,
    };
    match item {
        Some(i) => Some(map_db_model_to_media_item(config, i, position)),
        None => None,
    }
}

/// The history entry for a playback history row: its item, with playback at
/// the position recorded, in the session and at the time recorded.
pub fn history_item_from_record(config: &Config, record: &HistoryRecord) -> (r: MediaSourceHistoryItem)
    ensures
        r.session_key@ == record.session_key@,
        nanos(r.position) == history_position(record.position),
        r.date_modified == record.date_modified,
        mapped_item(*config, record.item, r.item),
        r.item.position == Some(r.position),
{
    let position = naive_time_to_duration(record.position);
    let item = map_db_model_to_media_item(config, &record.item, Some(position));
    MediaSourceHistoryItem::new(item, record.session_key.clone(), position, record.date_modified)
}

/// The last row for `f` in `a + b` is the last in `b`, else the last in `a`.
pub proof fn lemma_last_tag_append(a: Seq<(TagField, Seq<char>)>, b: Seq<(TagField, Seq<char>)>, f: TagField)
    ensures
        last_tag(a + b, f) == (match last_tag(b, f) {
            Some(v) => Some(v),
            None => last_tag(a, f),
        }),
    decreases b.len(),
{
    if b.len() == 0 {
        assert(a + b =~= a);
    } else {
        assert((a + b).drop_last() =~= a + b.drop_last());
        lemma_last_tag_append(a, b.drop_last(), f);
    }
}

/// The last row for `f` among the rows of one tag.
pub proof fn lemma_last_tag_row(g: TagField, v: Option<String>, f: TagField)
    ensures
        last_tag(tag_row(g, v), f) == (if g == f {
            opt_view(v)
        } else {
            None
        }),
{
    let t = tag_row(g, v);
    if v is Some {
        assert(t.len() == 1);
        assert(t.last() == (g, v->0@));
        assert(t.drop_last() =~= Seq::<(TagField, Seq<char>)>::empty());
        assert(last_tag(t.drop_last(), f) is None);
    } else {
        assert(t.len() == 0);
    }
}

/// Reading back the tag rows written for an item's tags gives each tag as it
/// was: what the database updater writes, the media source reads.
pub proof fn law_tag_rows_round_trip(meta: MediaSourceMetadata)
    ensures
        last_tag(metadata_rows_spec(meta), TagField::Title) == opt_view(meta.title),
        last_tag(metadata_rows_spec(meta), TagField::Genre) == opt_view(meta.genre),
        last_tag(metadata_rows_spec(meta), TagField::Artist) == opt_view(meta.artist),
        last_tag(metadata_rows_spec(meta), TagField::Album) == opt_view(meta.album),
        last_tag(metadata_rows_spec(meta), TagField::Composer) == opt_view(meta.composer),
        last_tag(metadata_rows_spec(meta), TagField::Series) == opt_view(meta.series),
        last_tag(metadata_rows_spec(meta), TagField::Part) == opt_view(meta.part),
{
    let r1 = tag_row(TagField::Genre, meta.genre);
    let r2 = tag_row(TagField::Artist, meta.artist);
    let r3 = tag_row(TagField::Title, meta.title);
    let r4 = tag_row(TagField::Album, meta.album);
    let r5 = tag_row(TagField::Composer, meta.composer);
    let r6 = tag_row(TagField::Series, meta.series);
    let r7 = tag_row(TagField::Part, meta.part);
    let fields = seq![TagField::Title, TagField::Genre, TagField::Artist, TagField::Album,
        TagField::Composer, TagField::Series, TagField::Part];
    assert forall|k: int| 0 <= k < 7 implies ({
        let f = #[trigger] fields[k];
        last_tag(metadata_rows_spec(meta), f) == (match f {
            TagField::Title => opt_view(meta.title),
            TagField::Genre => opt_view(meta.genre),
            TagField::Artist => opt_view(meta.artist),
            TagField::Album => opt_view(meta.album),
            TagField::Composer => opt_view(meta.composer),
            TagField::Series => opt_view(meta.series),
            TagField::Part => opt_view(meta.part),
        })
    }) by {
        let f = fields[k];
        lemma_last_tag_row(TagField::Genre, meta.genre, f);
        lemma_last_tag_row(TagField::Artist, meta.artist, f);
        lemma_last_tag_row(TagField::Title, meta.title, f);
        lemma_last_tag_row(TagField::Album, meta.album, f);
        lemma_last_tag_row(TagField::Composer, meta.composer, f);
        lemma_last_tag_row(TagField::Series, meta.series, f);
        lemma_last_tag_row(TagField::Part, meta.part, f);
        lemma_last_tag_append(r1, r2, f);
        lemma_last_tag_append(r1 + r2, r3, f);
        lemma_last_tag_append(r1 + r2 + r3, r4, f);
        lemma_last_tag_append(r1 + r2 + r3 + r4, r5, f);
        lemma_last_tag_append(r1 + r2 + r3 + r4 + r5, r6, f);
        lemma_last_tag_append(r1 + r2 + r3 + r4 + r5 + r6, r7, f);
        assert(last_tag(Seq::<(TagField, Seq<char>)>::empty(), f) is None);
    }
    assert(fields[0] == TagField::Title);
    assert(fields[1] == TagField::Genre);
    assert(fields[2] == TagField::Artist);
    assert(fields[3] == TagField::Album);
    assert(fields[4] == TagField::Composer);
    assert(fields[5] == TagField::Series);
    assert(fields[6] == TagField::Part);
}

/// Reading back the JSON rows written for an item's chapters gives its
/// chapters as they were (none when it had none): what the database updater
/// writes, the media source reads.
pub proof fn law_chapters_round_trip(meta: MediaSourceMetadata, json: Seq<JsonMetadataTag>)
    requires
        chapters_rows_spec(meta, json),
    ensures
        stored_chapters(json) == meta.chapters@,
{
    if meta.chapters@.len() > 0 {
        assert(json.last() == json[0]);
    } else {
        assert(stored_chapters(json) =~= meta.chapters@);
    }
}

} // verus!
