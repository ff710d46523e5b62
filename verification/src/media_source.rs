//! The media library's items as the player sees them: audio files with their
//! tags, cover picture and chapters.
use vstd::prelude::*;
use std::time::Duration;
use crate::time::{duration_add, duration_nanos_bound, nanos};

verus! {

/// What kind of media an item is.
#[derive(Debug, Clone, Copy, PartialEq, Eq, Structural)]
pub enum MediaType {
    Audiobook,
    Music,
    Unspecified,
}

/// A chapter of an item: its title, where it starts and how long it lasts.
#[derive(Debug, PartialEq, Eq)]
pub struct MediaSourceChapter {
    pub title: String,
    pub start: Duration,
    pub duration: Duration,
}

impl Clone for MediaSourceChapter {
    fn clone(&self) -> (r: Self)
        ensures
            r == *self,
    {
        MediaSourceChapter { title: self.title.clone(), start: self.start, duration: self.duration }
    }
}

/// Where a chapter starts, in nanoseconds.
pub open spec fn chapter_start(c: MediaSourceChapter) -> int {
    nanos(c.start)
}

/// Where a chapter ends, in nanoseconds.
pub open spec fn chapter_end(c: MediaSourceChapter) -> int {
    nanos(c.start) + nanos(c.duration)
}

impl MediaSourceChapter {
    pub fn new(title: String, start: Duration, duration: Duration) -> (r: Self)
        ensures
            r.title == title,
            r.start == start,
            r.duration == duration,
    {
        MediaSourceChapter { title, start, duration }
    }

    /// The end of the chapter is a `Duration` too.
    pub open spec fn wf(self) -> bool {
        chapter_end(self) < duration_nanos_bound()
    }

    /// Where the chapter ends: its start plus its length.
    pub fn end(&self) -> (r: Duration)
        requires
            self.wf(),
        ensures
            nanos(r) == chapter_end(*self),
    {
        duration_add(self.start, self.duration)
    }
}

/// Every chapter's end is a `Duration`.
pub open spec fn chapters_wf(chapters: Seq<MediaSourceChapter>) -> bool {
    forall|i: int| 0 <= i < chapters.len() ==> #[trigger] chapters[i].wf()
}

/// A copy of a chapter list.
pub(crate) fn copy_chapters(v: &Vec<MediaSourceChapter>) -> (r: Vec<MediaSourceChapter>)
    ensures
        r@ == v@,
{
    let r = v.clone();
    assert forall|k: int| 0 <= k < v@.len() implies r@[k] == v@[k] by {
        assert(vstd::pervasive::cloned::<MediaSourceChapter>(v[k], r[k]));
    }
    assert(r@ =~= v@);
    r
}

/// The picture format of a cover image.
#[derive(Debug, Clone, Copy, PartialEq, Eq, Structural)]
pub enum MediaSourceImageCodec {
    Png,
    Jpeg,
    Tiff,
    Bmp,
    Gif,
    Unknown,
}

/// A cover picture in the picture cache, found by the hash of its bytes.
#[derive(Debug, PartialEq, Eq)]
pub struct MediaSourcePicture {
    pub cache_dir: String,
    pub hash: String,
    pub codec: MediaSourceImageCodec,
}

impl Clone for MediaSourcePicture {
    fn clone(&self) -> (r: Self)
        ensures
            r == *self,
    {
        MediaSourcePicture { cache_dir: self.cache_dir.clone(), hash: self.hash.clone(), codec: self.codec }
    }
}

/// The tags of an item.
#[derive(Debug, PartialEq, Eq)]
pub struct MediaSourceMetadata {
    pub artist: Option<String>,
    pub title: Option<String>,
    pub album: Option<String>,
    pub genre: Option<String>,
    pub composer: Option<String>,
    pub series: Option<String>,
    pub part: Option<String>,
    pub cover: Option<MediaSourcePicture>,
    pub chapters: Vec<MediaSourceChapter>,
}

/// A copy of an optional text.
fn clone_text(t: &Option<String>) -> (r: Option<String>)
    ensures
        r == *t,
{
    match t {
        Some(s) => Some(s.clone()),
        None => None,
    }
}

/// Two metadata values hold the same tags, cover and chapters.
pub open spec fn same_metadata(a: MediaSourceMetadata, b: MediaSourceMetadata) -> bool {
    &&& a.artist == b.artist
    &&& a.title == b.title
    &&& a.album == b.album
    &&& a.genre == b.genre
    &&& a.composer == b.composer
    &&& a.series == b.series
    &&& a.part == b.part
    &&& a.cover == b.cover
    &&& a.chapters@ == b.chapters@
}

/// Two items are the same item with the same metadata.
pub open spec fn same_item(a: MediaSourceItem, b: MediaSourceItem) -> bool {
    &&& a.id == b.id
    &&& a.location == b.location
    &&& a.title == b.title
    &&& a.media_type == b.media_type
    &&& same_metadata(a.metadata, b.metadata)
    &&& a.position == b.position
}

impl Clone for MediaSourceMetadata {
    fn clone(&self) -> (r: Self)
        ensures
            same_metadata(r, *self),
    {
        let cover = match &self.cover {
            Some(p) => Some(p.clone()),
            None => None,
        };
        let mut chapters: Vec<MediaSourceChapter> = Vec::new();
        let mut i: usize = 0;
        while i < self.chapters.len()
            invariant
                i <= self.chapters@.len(),
                chapters@ == self.chapters@.take(i as int),
            decreases self.chapters@.len() - i,
        {
            chapters.push(self.chapters[i].clone());
            i = i + 1;
            proof {
                assert(chapters@ =~= self.chapters@.take(i as int));
            }
        }
        proof {
            assert(chapters@ =~= self.chapters@);
        }
        MediaSourceMetadata {
            artist: clone_text(&self.artist),
            title: clone_text(&self.title),
            album: clone_text(&self.album),
            genre: clone_text(&self.genre),
            composer: clone_text(&self.composer),
            series: clone_text(&self.series),
            part: clone_text(&self.part),
            cover,
            chapters,
        }
    }
}

impl MediaSourceMetadata {
    /// Metadata with every tag set.
    pub fn new(
        artist: Option<String>,
        title: Option<String>,
        album: Option<String>,
        composer: Option<String>,
        series: Option<String>,
        part: Option<String>,
        genre: Option<String>,
        cover: Option<MediaSourcePicture>,
        chapters: Vec<MediaSourceChapter>,
    ) -> (r: Self)
        ensures
            r.artist == artist,
            r.title == title,
            r.album == album,
            r.composer == composer,
            r.series == series,
            r.part == part,
            r.genre == genre,
            r.cover == cover,
            r.chapters == chapters,
    {
        MediaSourceMetadata { artist, title, album, genre, composer, series, part, cover, chapters }
    }

    /// Metadata without any tag, cover or chapter.
    pub fn empty() -> (r: Self)
        ensures
            r.is_empty_spec(),
    {
        MediaSourceMetadata {
            artist: None,
            title: None,
            album: None,
            genre: None,
            composer: None,
            series: None,
            part: None,
            cover: None,
            chapters: Vec::new(),
        }
    }

    /// No tag, no cover, no chapter.
    pub open spec fn is_empty_spec(&self) -> bool {
        &&& self.artist is None
        &&& self.title is None
        &&& self.album is None
        &&& self.genre is None
        &&& self.composer is None
        &&& self.series is None
        &&& self.part is None
        &&& self.cover is None
        &&& self.chapters@.len() == 0
    }
}

/// An item of the media library.
#[derive(Debug, PartialEq, Eq)]
pub struct MediaSourceItem {
    pub id: String,
    pub location: String,
    pub title: String,
    pub media_type: MediaType,
    pub metadata: MediaSourceMetadata,
    pub position: Option<Duration>,
}

impl Clone for MediaSourceItem {
    fn clone(&self) -> (r: Self)
        ensures
            same_item(r, *self),
    {
        MediaSourceItem {
            id: self.id.clone(),
            location: self.location.clone(),
            title: self.title.clone(),
            media_type: self.media_type,
            metadata: self.metadata.clone(),
            position: self.position,
        }
    }
}

/// An item together with where its playback stood, in which listening
/// session, and when that was recorded (as a time since the Unix epoch).
#[derive(Debug, PartialEq, Eq)]
pub struct MediaSourceHistoryItem {
    pub item: MediaSourceItem,
    pub session_key: String,
    pub position: Duration,
    pub date_modified: Duration,
}

impl Clone for MediaSourceHistoryItem {
    fn clone(&self) -> (r: Self)
        ensures
            same_item(r.item, self.item),
            r.session_key == self.session_key,
            r.position == self.position,
            r.date_modified == self.date_modified,
    {
        MediaSourceHistoryItem {
            item: self.item.clone(),
            session_key: self.session_key.clone(),
            position: self.position,
            date_modified: self.date_modified,
        }
    }
}

impl MediaSourceHistoryItem {
    pub fn new(item: MediaSourceItem, session_key: String, position: Duration, date_modified: Duration) -> (r: Self)
        ensures
            r.item == item,
            r.session_key == session_key,
            r.position == position,
            r.date_modified == date_modified,
    {
        MediaSourceHistoryItem { item, session_key, position, date_modified }
    }
}

} // verus!
