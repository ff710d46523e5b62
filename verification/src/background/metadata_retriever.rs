//! Turning the tags read from an audio file into a library item: where the
//! file is below the media directory, what kind of media it is, its title,
//! chapters, series and cover picture.
use vstd::prelude::*;
use vstd::utf8::{decode_utf8, encode_utf8};
use vstd::string::StringSliceAdditionalSpecFns;
use std::time::Duration;
use crate::file_utils::{filename_stem, spec_file_stem};
use crate::media_source::{
    MediaSourceChapter, MediaSourceImageCodec, MediaSourceItem, MediaSourceMetadata,
    MediaSourcePicture, MediaType,
};
use crate::text::{
    hex_digits, join_path, join_path_spec, push_hex, starts_with, starts_with_str,
    trim_start_char, trim_start_matches_char,
};
use crate::time::{duration_sub, nanos};
use crate::media_source::{chapter_end, chapter_start};
use crate::background::player::chapters_contiguous;

verus! {

/// Where a file is below the media directory: the bytes of `file` after as
/// many bytes as `base` has, without leading slashes.
pub open spec fn relative_location_spec(base: Seq<char>, file: Seq<char>) -> Seq<char> {
    trim_start_char(decode_utf8(encode_utf8(file).skip(encode_utf8(base).len() as int)), '/')
}

/// Encoding a concatenation is concatenating the encodings.
pub proof fn lemma_encode_utf8_append(a: Seq<char>, b: Seq<char>)
    ensures
        encode_utf8(a + b) == encode_utf8(a) + encode_utf8(b),
    decreases a.len(),
{
    if a.len() == 0 {
        assert(a + b =~= b);
        assert(encode_utf8(a) =~= Seq::<u8>::empty());
        assert(encode_utf8(a) + encode_utf8(b) =~= encode_utf8(b));
    } else {
        assert((a + b).drop_first() =~= a.drop_first() + b);
        assert((a + b)[0] == a[0]);
        lemma_encode_utf8_append(a.drop_first(), b);
        let e0 = vstd::utf8::encode_scalar(a[0] as u32);
        assert(encode_utf8(a + b) == e0 + encode_utf8(a.drop_first() + b));
        assert(encode_utf8(a) == e0 + encode_utf8(a.drop_first()));
        assert(e0 + (encode_utf8(a.drop_first()) + encode_utf8(b)) =~= (e0 + encode_utf8(a.drop_first())) + encode_utf8(b));
    }
}

/// The end of the encoding of a prefix is a character boundary.
pub proof fn lemma_prefix_char_boundary(a: Seq<char>, b: Seq<char>)
    ensures
        vstd::utf8::is_char_boundary(encode_utf8(a + b), encode_utf8(a).len() as int),
    decreases a.len(),
{
    broadcast use vstd::utf8::encode_utf8_valid_utf8;
    lemma_encode_utf8_append(a, b);
    if a.len() == 0 {
    } else {
        let bytes = encode_utf8(a + b);
        assert((a + b).drop_first() =~= a.drop_first() + b);
        assert((a + b)[0] == a[0]);
        vstd::utf8::encode_utf8_first_scalar(a + b);
        let e0 = vstd::utf8::encode_scalar(a[0] as u32);
        assert(vstd::utf8::pop_first_scalar(bytes) =~= encode_utf8(a.drop_first() + b));
        lemma_prefix_char_boundary(a.drop_first(), b);
        assert(encode_utf8(a).len() == e0.len() + encode_utf8(a.drop_first()).len());
    }
}


/// Where the file `file_path` is below the directory `base_path`: what
/// follows the first `base_path.len()` bytes, without leading slashes. The
/// cut falls on a character boundary within the path.
pub fn relative_location(base_path: &str, file_path: &str) -> (r: String)
    requires
        base_path.spec_bytes().len() <= file_path.spec_bytes().len(),
        vstd::utf8::is_char_boundary(file_path.spec_bytes(), base_path.spec_bytes().len() as int),
    ensures
        r@ == relative_location_spec(base_path@, file_path@),
{
    broadcast use {vstd::utf8::encode_utf8_decode_utf8, vstd::utf8::encode_utf8_valid_utf8};
    let start_index = base_path.as_bytes().len();
    // the byte lengths of both paths are lengths of slices, so they fit in usize
    let file_len = file_path.as_bytes().len();
    assert(start_index as int == base_path.spec_bytes().len());
    assert(file_len as int == file_path.spec_bytes().len());
    let (_head, rest) = file_path.split_at(start_index);
    proof {
        assert(rest.spec_bytes() =~= encode_utf8(file_path@).skip(start_index as int));
        assert(rest.spec_bytes() == encode_utf8(rest@));
        assert(decode_utf8(encode_utf8(rest@)) == rest@);
    }
    trim_start_matches_char(rest, '/')
}

/// For a file below the base directory, its location is its path after the
/// base directory without leading slashes, and cutting there is allowed.
pub proof fn law_relative_location_of_child(base: Seq<char>, tail: Seq<char>)
    ensures
        encode_utf8(base).len() <= encode_utf8(base + tail).len(),
        vstd::utf8::is_char_boundary(encode_utf8(base + tail), encode_utf8(base).len() as int),
        relative_location_spec(base, base + tail) == trim_start_char(tail, '/'),
{
    broadcast use vstd::utf8::encode_utf8_decode_utf8;
    lemma_encode_utf8_append(base, tail);
    lemma_prefix_char_boundary(base, tail);
    assert(encode_utf8(base + tail).skip(encode_utf8(base).len() as int) =~= encode_utf8(tail));
}


/// The kind of media a location below the media directory holds: music in
/// `music/`, audiobooks in `audiobooks/`.
pub open spec fn location_media_type(location: Seq<char>) -> MediaType {
    if starts_with(location, "music/"@) {
        MediaType::Music
    } else if starts_with(location, "audiobooks/"@) {
        MediaType::Audiobook
    } else {
        MediaType::Unspecified
    }
}

/// The kind of media a location below the media directory holds.
pub fn media_type_for_location(location: &str) -> (r: MediaType)
    ensures
        r == location_media_type(location@),
{
    if starts_with_str(location, "music/") {
        MediaType::Music
    } else if starts_with_str(location, "audiobooks/") {
        MediaType::Audiobook
    } else {
        MediaType::Unspecified
    }
}

/// The title of a scanned file: its title tag, else its file stem, else
/// empty.
pub open spec fn scanned_title(meta: MediaSourceMetadata, stem: Option<Seq<char>>) -> Seq<char> {
    match meta.title {
        Some(t) => t@,
        None => match stem {
            Some(s) => s,
            None => Seq::empty(),
        },
    }
}

/// The library item for a scanned file, given the tags read from it and its
/// file stem: no id yet, its location below `base_path`, its kind of media
/// by that location, and its title.
pub fn media_item_from_parts(
    base_path: &str,
    file_path: &str,
    meta: MediaSourceMetadata,
    stem: Option<String>,
) -> (r: MediaSourceItem)
    requires
        base_path.spec_bytes().len() <= file_path.spec_bytes().len(),
        vstd::utf8::is_char_boundary(file_path.spec_bytes(), base_path.spec_bytes().len() as int),
    ensures
        r.id@ == Seq::<char>::empty(),
        r.location@ == relative_location_spec(base_path@, file_path@),
        r.media_type == location_media_type(relative_location_spec(base_path@, file_path@)),
        r.title@ == scanned_title(meta, match stem {
            Some(s) => Some(s@),
            None => None,
        }),
        r.metadata == meta,
        r.position is None,
{
    let rel_path = relative_location(base_path, file_path);
    let media_type = media_type_for_location(rel_path.as_str());
    let title = match &meta.title {
        Some(t) => t.clone(),
        None => match stem {
            Some(s) => s,
            None => String::new(),
        },
    };
    MediaSourceItem {
        id: String::new(),
        location: rel_path,
        title,
        media_type,
        metadata: meta,
        position: None,
    }
}

/// The library item for a scanned file, given the tags read from it.
pub fn media_item_for_file(base_path: &str, file_path: &str, meta: MediaSourceMetadata) -> (r: MediaSourceItem)
    requires
        base_path.spec_bytes().len() <= file_path.spec_bytes().len(),
        vstd::utf8::is_char_boundary(file_path.spec_bytes(), base_path.spec_bytes().len() as int),
    ensures
        r.id@ == Seq::<char>::empty(),
        r.location@ == relative_location_spec(base_path@, file_path@),
        r.media_type == location_media_type(relative_location_spec(base_path@, file_path@)),
        r.title@ == scanned_title(meta, spec_file_stem(file_path@)),
        r.metadata == meta,
        r.position is None,
{
    let stem = filename_stem(file_path);
    media_item_from_parts(base_path, file_path, meta, stem)
}

/// The directory for cover pictures below a storage directory.
pub fn metadata_cache_path(base_path: &str) -> (r: String)
    ensures
        r@ == join_path_spec(base_path@, "cache/"@),
{
    join_path(base_path, "cache/")
}

/// A chapter mark of an MP4 file: a title and where the chapter starts.
#[derive(Debug, PartialEq, Eq)]
pub struct ChapterMark {
    pub title: String,
    pub start: Duration,
}

/// Where the `i`th chapter ends: where the next one starts, or the end of
/// the file for the last.
pub open spec fn mark_end(marks: Seq<ChapterMark>, total: Duration, i: int) -> int {
    if i + 1 < marks.len() {
        nanos(marks[i + 1].start)
    } else {
        nanos(total)
    }
}

/// No chapter starts after it ends.
pub open spec fn marks_ordered(marks: Seq<ChapterMark>, total: Duration) -> bool {
    forall|i: int| 0 <= i < marks.len() ==> nanos(#[trigger] marks[i].start) <= mark_end(marks, total, i)
}

/// The chapters of a file of length `total` with the chapter marks `marks`:
/// each with its title and start, lasting until the next one starts (the
/// last one until the end).
pub fn chapters_from_marks(marks: &Vec<ChapterMark>, total: Duration) -> (r: Vec<MediaSourceChapter>)
    requires
        marks_ordered(marks@, total),
    ensures
        r@.len() == marks@.len(),
        forall|i: int| 0 <= i < r@.len() ==> {
            &&& #[trigger] r@[i].title == marks@[i].title
            &&& r@[i].start == marks@[i].start
            &&& nanos(r@[i].duration) == mark_end(marks@, total, i) - nanos(marks@[i].start)
        },
{
    let mut chapters: Vec<MediaSourceChapter> = Vec::new();
    let mut i: usize = 0;
    while i < marks.len()
        invariant
            i <= marks@.len(),
            marks_ordered(marks@, total),
            chapters@.len() == i,
            forall|k: int| 0 <= k < i ==> {
                &&& #[trigger] chapters@[k].title == marks@[k].title
                &&& chapters@[k].start == marks@[k].start
                &&& nanos(chapters@[k].duration) == mark_end(marks@, total, k) - nanos(marks@[k].start)
            },
        decreases marks@.len() - i,
    {
        let end = if i + 1 < marks.len() {
            marks[i + 1].start
        } else {
            total
        };
        let mark = &marks[i];
        assert(nanos(mark.start) <= mark_end(marks@, total, i as int));
        let duration = duration_sub(end, mark.start);
        chapters.push(MediaSourceChapter::new(mark.title.clone(), mark.start, duration));
        i = i + 1;
    }
    chapters
}

/// The MP4-specific tags of a file: composer, genre, the series and part
/// (as freeform tags), the movement and movement index, and the chapter
/// marks.
#[derive(Debug, PartialEq, Eq)]
pub struct Mp4Tags {
    pub composer: Option<String>,
    pub genre: Option<String>,
    pub series: Option<String>,
    pub part: Option<String>,
    pub movement: Option<String>,
    pub movement_index: Option<u16>,
    pub chapters: Vec<ChapterMark>,
}

/// The text of an optional number.
pub open spec fn opt_decimal(n: Option<u16>) -> Option<Seq<char>> {
    match n {
        Some(v) => Some(crate::text::decimal(v as nat)),
        None => None,
    }
}

/// The view of an optional string.
pub open spec fn opt_text(o: Option<String>) -> Option<Seq<char>> {
    match o {
        Some(s) => Some(s@),
        None => None,
    }
}

/// Adds the MP4-specific tags of a file of length `duration` to its
/// metadata: its chapters, composer and genre; its series (the series tag,
/// else the movement, else as it was) and its part (the part tag, else the
/// movement index, else as it was).
pub fn extract_mp4_metadata(meta: &mut MediaSourceMetadata, tags: Mp4Tags, duration: Duration)
    requires
        marks_ordered(tags.chapters@, duration),
    ensures
        final(meta).chapters@.len() == tags.chapters@.len(),
        forall|i: int| 0 <= i < tags.chapters@.len() ==> {
            &&& #[trigger] final(meta).chapters@[i].title == tags.chapters@[i].title
            &&& final(meta).chapters@[i].start == tags.chapters@[i].start
            &&& nanos(final(meta).chapters@[i].duration) == mark_end(tags.chapters@, duration, i)
                - nanos(tags.chapters@[i].start)
        },
        final(meta).composer == tags.composer,
        final(meta).genre == tags.genre,
        opt_text(final(meta).series) == (if tags.series is Some {
            opt_text(tags.series)
        } else if tags.movement is Some {
            opt_text(tags.movement)
        } else {
            opt_text(old(meta).series)
        }),
        opt_text(final(meta).part) == (if tags.part is Some {
            opt_text(tags.part)
        } else if tags.movement_index is Some {
            opt_decimal(tags.movement_index)
        } else {
            opt_text(old(meta).part)
        }),
        final(meta).artist == old(meta).artist,
        final(meta).title == old(meta).title,
        final(meta).album == old(meta).album,
        final(meta).cover == old(meta).cover,
{
    meta.chapters = chapters_from_marks(&tags.chapters, duration);
    meta.composer = tags.composer;
    meta.genre = tags.genre;
    if tags.series.is_some() {
        meta.series = tags.series;
    } else if tags.movement.is_some() {
        meta.series = tags.movement;
    }
    if tags.part.is_some() {
        meta.part = tags.part;
    } else if let Some(index) = tags.movement_index {
        let mut text = String::new();
        crate::text::push_decimal(&mut text, index as u128);
        meta.part = Some(text);
    }
}

/// The format of a picture as its tag declares it.
#[derive(Debug, Clone, Copy, PartialEq, Eq, Structural)]
pub enum PictureMimeType {
    Png,
    Jpeg,
    Tiff,
    Bmp,
    Gif,
    Other,
}

/// The picture format for a declared format (unknown when none is
/// declared).
pub fn map_encoding(mime_type: Option<PictureMimeType>) -> (r: MediaSourceImageCodec)
    ensures
        r == (match mime_type {
            Some(PictureMimeType::Png) => MediaSourceImageCodec::Png,
            Some(PictureMimeType::Jpeg) => MediaSourceImageCodec::Jpeg,
            Some(PictureMimeType::Tiff) => MediaSourceImageCodec::Tiff,
            Some(PictureMimeType::Bmp) => MediaSourceImageCodec::Bmp,
            Some(PictureMimeType::Gif) => MediaSourceImageCodec::Gif,
            _ => MediaSourceImageCodec::Unknown,
        }),
{
    match mime_type {
        Some(PictureMimeType::Png) => MediaSourceImageCodec::Png,
        Some(PictureMimeType::Jpeg) => MediaSourceImageCodec::Jpeg,
        Some(PictureMimeType::Tiff) => MediaSourceImageCodec::Tiff,
        Some(PictureMimeType::Bmp) => MediaSourceImageCodec::Bmp,
        Some(PictureMimeType::Gif) => MediaSourceImageCodec::Gif,
        _ => MediaSourceImageCodec::Unknown,
    }
}

/// What `xxhash_rust::xxh3::xxh3_64` returns for `data`.
pub uninterp spec fn spec_xxh3_64(data: Seq<u8>) -> u64;

/// `xxhash_rust::xxh3::xxh3_64`: the 64-bit XXH3 hash of `data` (with the
/// default seed and secret).
#[verifier::external_body]
fn xxh3_64(data: &[u8]) -> (r: u64)
    ensures
        r == spec_xxh3_64(data@),
{
    xxhash_rust::xxh3::xxh3_64(data)
}

/// The text of a picture hash: 16 lowercase hexadecimal digits.
pub fn hash_text(hash: u64) -> (r: String)
    ensures
        r@ == hex_digits(hash as nat, 16),
{
    let mut r = String::new();
    push_hex(&mut r, hash, 16);
    r
}

/// The cache entry of a cover picture with the bytes `data` and the
/// declared format `mime_type`: found by the hexadecimal XXH3 hash of its
/// bytes in `cache_path`.
pub fn picture_for(cache_path: &str, data: &[u8], mime_type: Option<PictureMimeType>) -> (r: MediaSourcePicture)
    ensures
        r.cache_dir@ == cache_path@,
        r.hash@ == hex_digits(spec_xxh3_64(data@) as nat, 16),
        r.codec == (match mime_type {
            Some(PictureMimeType::Png) => MediaSourceImageCodec::Png,
            Some(PictureMimeType::Jpeg) => MediaSourceImageCodec::Jpeg,
            Some(PictureMimeType::Tiff) => MediaSourceImageCodec::Tiff,
            Some(PictureMimeType::Bmp) => MediaSourceImageCodec::Bmp,
            Some(PictureMimeType::Gif) => MediaSourceImageCodec::Gif,
            _ => MediaSourceImageCodec::Unknown,
        }),
{
    let hash = hash_text(xxh3_64(data));
    MediaSourcePicture {
        cache_dir: String::from_str(cache_path),
        hash,
        codec: map_encoding(mime_type),
    }
}

/// Metadata without any tag.
pub fn empty_metadata() -> (r: MediaSourceMetadata)
    ensures
        r.is_empty_spec(),
{
    MediaSourceMetadata::empty()
}


/// The chapters made from ordered marks follow each other without gap: each
/// ends where the next starts, the first starts at the first mark and the
/// last ends at the end of the file.
pub proof fn law_chapters_contiguous(marks: Seq<ChapterMark>, total: Duration, chapters: Seq<MediaSourceChapter>)
    requires
        marks_ordered(marks, total),
        chapters.len() == marks.len(),
        forall|i: int| 0 <= i < chapters.len() ==> {
            &&& #[trigger] chapters[i].title == marks[i].title
            &&& chapters[i].start == marks[i].start
            &&& nanos(chapters[i].duration) == mark_end(marks, total, i) - nanos(marks[i].start)
        },
    ensures
        chapters_contiguous(chapters),
        chapters.len() > 0 ==> chapter_end(chapters.last()) == nanos(total),
{
    assert forall|i: int| 0 <= i < chapters.len() - 1 implies chapter_end(#[trigger] chapters[i]) == chapter_start(chapters[i + 1]) by {
        assert(chapters[i].title == marks[i].title);
        assert(chapters[i + 1].title == marks[i + 1].title);
    }
    if chapters.len() > 0 {
        let k = chapters.len() - 1;
        assert(chapters[k].title == marks[k].title);
    }
}

/// The metadata of a file whose tags were read: artist, title and album,
/// the first picture as cover, then its MP4-specific tags when it has them.
#[derive(Debug, PartialEq, Eq)]
pub struct TagValues {
    pub artist: Option<String>,
    pub title: Option<String>,
    pub album: Option<String>,
    pub pictures: Vec<MediaSourcePicture>,
    pub mp4: Option<Mp4Tags>,
}

/// The metadata of a file of length `duration` from its tag: empty when it
/// has none; otherwise its artist, title and album, its first picture as
/// cover, and for an MP4 tag also its chapters, composer, genre, series and
/// part.
pub fn metadata_from_tag(tag: Option<TagValues>, duration: Duration) -> (r: MediaSourceMetadata)
    requires
        tag matches Some(t) ==> (t.mp4 matches Some(m) ==> marks_ordered(m.chapters@, duration)),
    ensures
        tag is None ==> r.is_empty_spec(),
        tag matches Some(t) ==> {
            &&& r.artist == t.artist
            &&& r.title == t.title
            &&& r.album == t.album
            &&& r.cover == (if t.pictures@.len() > 0 {
                Some(t.pictures@[0])
            } else {
                None::<MediaSourcePicture>
            })
            &&& t.mp4 is None ==> {
                &&& r.composer is None
                &&& r.genre is None
                &&& r.series is None
                &&& r.part is None
                &&& r.chapters@.len() == 0
            }
            &&& t.mp4 matches Some(m) ==> {
                &&& r.composer == m.composer
                &&& r.genre == m.genre
                &&& opt_text(r.series) == (if m.series is Some {
                    opt_text(m.series)
                } else {
                    opt_text(m.movement)
                })
                &&& opt_text(r.part) == (if m.part is Some {
                    opt_text(m.part)
                } else {
                    opt_decimal(m.movement_index)
                })
                &&& r.chapters@.len() == m.chapters@.len()
                &&& forall|i: int| 0 <= i < m.chapters@.len() ==> {
                    &&& #[trigger] r.chapters@[i].title == m.chapters@[i].title
                    &&& r.chapters@[i].start == m.chapters@[i].start
                    &&& nanos(r.chapters@[i].duration) == mark_end(m.chapters@, duration, i)
                        - nanos(m.chapters@[i].start)
                }
            }
        },
{
    match tag {
        None => empty_metadata(),
        Some(t) => {
            let TagValues { artist, title, album, pictures, mp4 } = t;
            let mut pictures = pictures;
            let cover = if pictures.len() > 0 {
                Some(pictures.swap_remove(0))
            } else {
                None
            };
            let mut meta = MediaSourceMetadata::new(artist, title, album, None, None, None, None, cover, Vec::new());
            if let Some(m) = mp4 {
                extract_mp4_metadata(&mut meta, m, duration);
            }
            meta
        },
    }
}

} // verus!
