//! The audio player: commands, events and the decisions of its loop.
use vstd::prelude::*;
use std::time::Duration;
use crate::media_source::{
    MediaSourceItem,
    chapter_end, chapter_start, chapters_wf, MediaSourceChapter, MediaSourceHistoryItem,
};
use crate::text::str_equals;
use crate::time::{
    duration_as_millis, duration_as_nanos, duration_from_millis, duration_new, duration_sub,
    nanos,
};

verus! {

/// What the player is asked to do. (Setting the volume to a percentage
/// carries a float where the player's services exchange it.)
#[derive(Debug, PartialEq, Eq)]
pub enum PlayerCommand {
    Update(String),
    RestoreLastSession(MediaSourceHistoryItem),
    PlayTest,
    PlayMedia(String, Duration),
    Pause,
    Stop,
    Play,
    Next,
    Previous,
    Toggle,
    Rewind,
    FastForward,
    CancelOngoing,
    SeekRelative(i64),
    SeekTo(Duration),
    IncreaseVolume,
    DecreaseVolume,
}


/// What the player reports.
#[derive(Debug, PartialEq, Eq)]
pub enum PlayerEvent {
    /// The item loaded and whether it is "playing" or "paused".
    Status(MediaSourceItem, String),
    /// The id of the item playing and where playback stands.
    Position(String, Duration),
    Stopped,
}

/// Within this time after the start of a chapter, "previous" goes to the
/// chapter before instead of back to the start of the current one.
pub open spec fn previous_delay_nanos() -> int {
    3_000_000_000
}

/// The chapter starts after `pos`.
pub open spec fn starts_after(c: MediaSourceChapter, pos: int) -> bool {
    chapter_start(c) > pos
}

/// The chapter spans `pos` (both ends included).
pub open spec fn spans(c: MediaSourceChapter, pos: int) -> bool {
    chapter_start(c) <= pos && chapter_end(c) >= pos
}

/// The index of the first chapter that starts after `pos`, or the number of
/// chapters when none does.
pub open spec fn first_after(chapters: Seq<MediaSourceChapter>, pos: int) -> int
    decreases chapters.len(),
{
    if chapters.len() == 0 {
        0
    } else if starts_after(chapters[0], pos) {
        0
    } else {
        1 + first_after(chapters.drop_first(), pos)
    }
}

/// The first chapter that starts after `pos`, if any.
pub open spec fn next_chapter_spec(chapters: Seq<MediaSourceChapter>, pos: int) -> Option<int> {
    if first_after(chapters, pos) < chapters.len() {
        Some(first_after(chapters, pos))
    } else {
        None
    }
}

/// `first_after` is the index of the first chapter starting after `pos`.
pub proof fn lemma_first_after(chapters: Seq<MediaSourceChapter>, pos: int)
    ensures
        0 <= first_after(chapters, pos) <= chapters.len(),
        forall|j: int| 0 <= j < first_after(chapters, pos) ==> !starts_after(#[trigger] chapters[j], pos),
        first_after(chapters, pos) < chapters.len() ==> starts_after(chapters[first_after(chapters, pos)], pos),
    decreases chapters.len(),
{
    if chapters.len() > 0 && !starts_after(chapters[0], pos) {
        lemma_first_after(chapters.drop_first(), pos);
        assert forall|j: int| 0 <= j < first_after(chapters, pos) implies !starts_after(#[trigger] chapters[j], pos) by {
            if j > 0 {
                assert(chapters[j] == chapters.drop_first()[j - 1]);
            }
        }
    }
}

/// An index with the properties of `first_after` is `first_after`.
pub proof fn lemma_first_after_unique(chapters: Seq<MediaSourceChapter>, pos: int, k: int)
    requires
        0 <= k <= chapters.len(),
        forall|j: int| 0 <= j < k ==> !starts_after(#[trigger] chapters[j], pos),
        k < chapters.len() ==> starts_after(chapters[k], pos),
    ensures
        first_after(chapters, pos) == k,
    decreases chapters.len(),
{
    if chapters.len() > 0 && k > 0 {
        assert(!starts_after(chapters[0], pos));
        assert forall|j: int| 0 <= j < k - 1 implies !starts_after(#[trigger] chapters.drop_first()[j], pos) by {
            assert(chapters.drop_first()[j] == chapters[j + 1]);
        }
        lemma_first_after_unique(chapters.drop_first(), pos, k - 1);
    }
}

/// The index of the first chapter that spans `pos`, or the number of
/// chapters when none does.
pub open spec fn first_spanning(chapters: Seq<MediaSourceChapter>, pos: int) -> int
    decreases chapters.len(),
{
    if chapters.len() == 0 {
        0
    } else if spans(chapters[0], pos) {
        0
    } else {
        1 + first_spanning(chapters.drop_first(), pos)
    }
}

/// The chapter at `pos`: the first that spans it.
pub open spec fn current_chapter_spec(chapters: Seq<MediaSourceChapter>, pos: int) -> Option<int> {
    if first_spanning(chapters, pos) < chapters.len() {
        Some(first_spanning(chapters, pos))
    } else {
        None
    }
}

/// The chapter before the one at `pos`; when no chapter spans `pos`, the
/// last chapter.
pub open spec fn previous_chapter_spec(chapters: Seq<MediaSourceChapter>, pos: int) -> Option<int> {
    if first_spanning(chapters, pos) == 0 {
        None
    } else {
        Some(first_spanning(chapters, pos) - 1)
    }
}

/// `first_spanning` is the index of the first spanning chapter.
pub proof fn lemma_first_spanning(chapters: Seq<MediaSourceChapter>, pos: int)
    ensures
        0 <= first_spanning(chapters, pos) <= chapters.len(),
        forall|j: int| 0 <= j < first_spanning(chapters, pos) ==> !spans(#[trigger] chapters[j], pos),
        first_spanning(chapters, pos) < chapters.len() ==> spans(chapters[first_spanning(chapters, pos)], pos),
    decreases chapters.len(),
{
    if chapters.len() > 0 && !spans(chapters[0], pos) {
        lemma_first_spanning(chapters.drop_first(), pos);
        assert forall|j: int| 0 <= j < first_spanning(chapters, pos) implies !spans(#[trigger] chapters[j], pos) by {
            if j > 0 {
                assert(chapters[j] == chapters.drop_first()[j - 1]);
            }
        }
    }
}

/// An index with the properties of `first_spanning` is `first_spanning`.
pub proof fn lemma_first_spanning_unique(chapters: Seq<MediaSourceChapter>, pos: int, k: int)
    requires
        0 <= k <= chapters.len(),
        forall|j: int| 0 <= j < k ==> !spans(#[trigger] chapters[j], pos),
        k < chapters.len() ==> spans(chapters[k], pos),
    ensures
        first_spanning(chapters, pos) == k,
    decreases chapters.len(),
{
    if chapters.len() > 0 && k > 0 {
        assert(!spans(chapters[0], pos));
        assert forall|j: int| 0 <= j < k - 1 implies !spans(#[trigger] chapters.drop_first()[j], pos) by {
            assert(chapters.drop_first()[j] == chapters[j + 1]);
        }
        lemma_first_spanning_unique(chapters.drop_first(), pos, k - 1);
    }
}

/// The index of the first chapter that spans `pos`, or the number of
/// chapters.
fn first_spanning_index(chapters: &Vec<MediaSourceChapter>, pos: Duration) -> (r: usize)
    requires
        chapters_wf(chapters@),
    ensures
        r == first_spanning(chapters@, nanos(pos)),
{
    let p = duration_as_nanos(pos);
    let mut i: usize = 0;
    while i < chapters.len()
        invariant
            i <= chapters@.len(),
            p == nanos(pos),
            chapters_wf(chapters@),
            forall|j: int| 0 <= j < i ==> !spans(#[trigger] chapters@[j], nanos(pos)),
        decreases chapters@.len() - i,
    {
        let c = &chapters[i];
        assert(c.wf());
        if duration_as_nanos(c.start) <= p && duration_as_nanos(c.end()) >= p {
            proof {
                lemma_first_spanning_unique(chapters@, nanos(pos), i as int);
            }
            return i;
        }
        i = i + 1;
    }
    proof {
        lemma_first_spanning_unique(chapters@, nanos(pos), i as int);
    }
    i
}

/// The first chapter that starts after `pos` (the one "next" skips to).
pub fn next_chapter(chapters: &Vec<MediaSourceChapter>, pos: Duration) -> (r: Option<usize>)
    ensures
        r == (match next_chapter_spec(chapters@, nanos(pos)) {
            Some(i) => Some(i as usize),
            None => None::<usize>,
        }),
        r matches Some(i) ==> i < chapters@.len() && starts_after(chapters@[i as int], nanos(pos)),
        r matches Some(i) ==> forall|j: int| 0 <= j < i ==> !starts_after(#[trigger] chapters@[j], nanos(pos)),
        r is None ==> forall|j: int| 0 <= j < chapters@.len() ==> !starts_after(#[trigger] chapters@[j], nanos(pos)),
        r matches Some(i) ==> i as int == first_after(chapters@, nanos(pos)),
        r is None ==> first_after(chapters@, nanos(pos)) == chapters@.len(),
{
    let p = duration_as_nanos(pos);
    let mut i: usize = 0;
    while i < chapters.len()
        invariant
            i <= chapters@.len(),
            p == nanos(pos),
            forall|j: int| 0 <= j < i ==> !starts_after(#[trigger] chapters@[j], nanos(pos)),
        decreases chapters@.len() - i,
    {
        if duration_as_nanos(chapters[i].start) > p {
            proof {
                lemma_first_after_unique(chapters@, nanos(pos), i as int);
            }
            return Some(i);
        }
        i = i + 1;
    }
    proof {
        lemma_first_after_unique(chapters@, nanos(pos), i as int);
    }
    None
}

/// The chapter at `pos`: the first one that spans it.
pub fn current_chapter(chapters: &Vec<MediaSourceChapter>, pos: Duration) -> (r: Option<usize>)
    requires
        chapters_wf(chapters@),
    ensures
        r == (match current_chapter_spec(chapters@, nanos(pos)) {
            Some(i) => Some(i as usize),
            None => None::<usize>,
        }),
        r matches Some(i) ==> i < chapters@.len() && spans(chapters@[i as int], nanos(pos)),
{
    proof {
        lemma_first_spanning(chapters@, nanos(pos));
    }
    if chapters.len() == 0 {
        return None;
    }
    let k = first_spanning_index(chapters, pos);
    if k < chapters.len() {
        Some(k)
    } else {
        None
    }
}

/// The chapter before the one at `pos`, or the last chapter when none spans
/// `pos`.
pub fn previous_chapter(chapters: &Vec<MediaSourceChapter>, pos: Duration) -> (r: Option<usize>)
    requires
        chapters_wf(chapters@),
    ensures
        r == (match previous_chapter_spec(chapters@, nanos(pos)) {
            Some(i) => Some(i as usize),
            None => None::<usize>,
        }),
        r matches Some(i) ==> i < chapters@.len() && i as int == first_spanning(chapters@, nanos(pos)) - 1,
        r is None ==> first_spanning(chapters@, nanos(pos)) == 0,
{
    proof {
        lemma_first_spanning(chapters@, nanos(pos));
    }
    if chapters.len() == 0 {
        return None;
    }
    let k = first_spanning_index(chapters, pos);
    if k == 0 {
        None
    } else {
        Some(k - 1)
    }
}


/// Where "previous" seeks to, as an offset in nanoseconds: the start of the
/// chapter at `pos` when playback is more than the previous-delay into it,
/// otherwise the start of the chapter before, otherwise the beginning.
pub open spec fn previous_target_spec(chapters: Seq<MediaSourceChapter>, pos: int) -> int {
    let cur = current_chapter_spec(chapters, pos);
    if cur is Some && pos - chapter_start(chapters[cur->0]) > previous_delay_nanos() {
        chapter_start(chapters[cur->0])
    } else {
        match previous_chapter_spec(chapters, pos) {
            Some(p) => chapter_start(chapters[p]),
            None => 0,
        }
    }
}

/// Where "next" seeks to: the start of the next chapter; `None` when there is
/// none, and the player skips to the next track instead.
pub fn next_target(chapters: &Vec<MediaSourceChapter>, pos: Duration) -> (r: Option<Duration>)
    ensures
        r is Some <==> next_chapter_spec(chapters@, nanos(pos)) is Some,
        r matches Some(d) ==> d == chapters@[next_chapter_spec(chapters@, nanos(pos))->0].start,
        r matches Some(d) ==> nanos(d) > nanos(pos),
{
    match next_chapter(chapters, pos) {
        Some(i) => Some(chapters[i].start),
        None => None,
    }
}

/// Where "previous" seeks to.
pub fn previous_target(chapters: &Vec<MediaSourceChapter>, pos: Duration) -> (r: Duration)
    requires
        chapters_wf(chapters@),
    ensures
        nanos(r) == previous_target_spec(chapters@, nanos(pos)),
{
    proof {
        lemma_first_spanning(chapters@, nanos(pos));
    }
    if let Some(c) = current_chapter(chapters, pos) {
        let start = chapters[c].start;
        let into = duration_sub(pos, start);
        if duration_as_nanos(into) > 3_000_000_000u128 {
            assert(current_chapter_spec(chapters@, nanos(pos)) == Some(c as int));
            return start;
        }
        assert(current_chapter_spec(chapters@, nanos(pos)) == Some(c as int));
    }
    match previous_chapter(chapters, pos) {
        Some(p) => {
            chapters[p].start
        },
        None => duration_new(0, 0),
    }
}

/// Where a relative seek by `millis` milliseconds (negative: backwards) goes,
/// in whole milliseconds, never before the beginning.
pub open spec fn seek_relative_millis(pos: int, millis: int) -> int {
    let target = pos / 1_000_000 + millis;
    if target < 0 {
        0
    } else {
        target
    }
}

/// The position of a relative seek by `millis` milliseconds from `pos`
/// (counted in the whole milliseconds of `pos`).
pub fn seek_relative_target(pos: Duration, millis: i64) -> (r: Duration)
    requires
        nanos(pos) / 1_000_000 + millis <= i64::MAX,
        nanos(pos) / 1_000_000 <= i64::MAX,
    ensures
        nanos(r) == seek_relative_millis(nanos(pos), millis as int) * 1_000_000,
{
    let pos_millis = duration_as_millis(pos) as i64;
    let target = pos_millis + millis;
    let target = if target < 0 { 0 } else { target };
    duration_from_millis(target as u64)
}

/// Loading the item with id `id` is skipped when it is the item loaded
/// already (`loaded_id`).
pub fn already_loaded(loaded_id: Option<&String>, id: &str) -> (r: bool)
    ensures
        r == (loaded_id matches Some(l) && l@ == id@),
{
    match loaded_id {
        Some(l) => str_equals(l.as_str(), id),
        None => false,
    }
}

/// Where playback is moved to once an item is loaded: to `position` when it
/// is past the beginning; a load at the beginning does not seek.
pub fn seek_after_load(position: Duration) -> (r: Option<Duration>)
    ensures
        r == (if nanos(position) > 0 {
            Some(position)
        } else {
            None::<Duration>
        }),
{
    if duration_as_nanos(position) > 0 {
        Some(position)
    } else {
        None
    }
}

/// The status the player reports: "paused" or "playing".
pub open spec fn status_text_spec(paused: bool) -> Seq<char> {
    if paused {
        "paused"@
    } else {
        "playing"@
    }
}

/// The status the player reports for its output being paused or not.
pub fn status_text(paused: bool) -> (r: String)
    ensures
        r@ == status_text_spec(paused),
{
    if paused {
        String::from_str("paused")
    } else {
        String::from_str("playing")
    }
}

/// Playback history is written at most every five seconds: whether it is due
/// at `now`, having been written at `last_update` (both times since the Unix
/// epoch).
pub fn history_update_due(last_update: Duration, now: Duration) -> (r: bool)
    ensures
        r == (nanos(last_update) + 5_000_000_000 < nanos(now)),
{
    duration_as_nanos(last_update) + 5_000_000_000 < duration_as_nanos(now)
}

/// While no audio output is connected, connecting is tried again every two
/// seconds: whether that is due at `now`, having last been tried at
/// `last_attempt`.
pub fn sink_retry_due(last_attempt: Duration, now: Duration) -> (r: bool)
    ensures
        r == (nanos(last_attempt) + 2_000_000_000 < nanos(now)),
{
    duration_as_nanos(last_attempt) + 2_000_000_000 < duration_as_nanos(now)
}

/// Whether playback moved since the last position reported.
pub fn position_changed(pos: Duration, last_pos: Duration) -> (r: bool)
    ensures
        r == (nanos(pos) != nanos(last_pos)),
{
    duration_as_nanos(pos) != duration_as_nanos(last_pos)
}

/// The audio output device chosen among the devices named `names`: the first
/// one named `preferred`; else the last one named `fallback`; else the first
/// device.
pub open spec fn select_device_spec(names: Seq<String>, preferred: Seq<char>, fallback: Seq<char>) -> Option<int> {
    if exists|i: int| 0 <= i < names.len() && #[trigger] names[i]@ == preferred {
        Some(choose|i: int| 0 <= i < names.len() && #[trigger] names[i]@ == preferred
            && forall|j: int| 0 <= j < i ==> #[trigger] names[j]@ != preferred)
    } else if exists|i: int| 0 <= i < names.len() && #[trigger] names[i]@ == fallback {
        Some(choose|i: int| 0 <= i < names.len() && #[trigger] names[i]@ == fallback
            && forall|j: int| i < j < names.len() ==> #[trigger] names[j]@ != fallback)
    } else if names.len() > 0 {
        Some(0)
    } else {
        None
    }
}

/// Chooses the audio output device by name.
#[verifier::rlimit(40)]
pub fn select_output_device(names: &Vec<String>, preferred: &String, fallback: &String) -> (r: Option<usize>)
    ensures
        r == (match select_device_spec(names@, preferred@, fallback@) {
            Some(i) => Some(i as usize),
            None => None::<usize>,
        }),
        r matches Some(i) ==> i < names@.len(),
{
    let mut fallback_dev: Option<usize> = None;
    let mut first_dev: Option<usize> = None;
    let mut i: usize = 0;
    while i < names.len()
        invariant
            i <= names@.len(),
            forall|j: int| 0 <= j < i ==> #[trigger] names@[j]@ != preferred@,
            fallback_dev matches Some(f) ==> f < i && names@[f as int]@ == fallback@
                && forall|j: int| f < j < i ==> #[trigger] names@[j]@ != fallback@,
            fallback_dev is None ==> forall|j: int| 0 <= j < i ==> #[trigger] names@[j]@ != fallback@,
            fallback_dev is None ==> (first_dev matches Some(f) ==> f == 0),
            fallback_dev is None ==> (first_dev is None <==> i == 0),
        decreases names@.len() - i,
    {
        let is_preferred = names[i] == *preferred;
        let is_fallback = names[i] == *fallback;
        if is_preferred {
            proof {
                let k = choose|k: int| 0 <= k < names@.len() && #[trigger] names@[k]@ == preferred@
                    && forall|j: int| 0 <= j < k ==> #[trigger] names@[j]@ != preferred@;
                assert(names@[i as int]@ == preferred@);
                if k > i {
                    assert(names@[i as int]@ != preferred@);
                }
            }
            return Some(i);
        } else if is_fallback {
            fallback_dev = Some(i);
        } else if first_dev.is_none() {
            first_dev = Some(i);
        }
        i = i + 1;
    }
    if fallback_dev.is_some() {
        proof {
            let f = fallback_dev->0 as int;
            assert(names@[f]@ == fallback@);
            let k = choose|k: int| 0 <= k < names@.len() && #[trigger] names@[k]@ == fallback@
                && forall|j: int| k < j < names@.len() ==> #[trigger] names@[j]@ != fallback@;
            if k < f {
                assert(names@[f]@ != fallback@);
            } else if k > f {
                assert(names@[k]@ != fallback@);
            }
        }
        fallback_dev
    } else {
        first_dev
    }
}


/// Each chapter ends where the next one starts.
pub open spec fn chapters_contiguous(chapters: Seq<MediaSourceChapter>) -> bool {
    forall|i: int| 0 <= i < chapters.len() - 1 ==> chapter_end(#[trigger] chapters[i]) == chapter_start(chapters[i + 1])
}

/// Within contiguous chapters, every position from the first start to the
/// last end is spanned by a chapter.
pub proof fn lemma_contiguous_spanned(chapters: Seq<MediaSourceChapter>, pos: int)
    requires
        chapters.len() > 0,
        chapters_contiguous(chapters),
        chapter_start(chapters[0]) <= pos <= chapter_end(chapters.last()),
    ensures
        first_spanning(chapters, pos) < chapters.len(),
    decreases chapters.len(),
{
    if !spans(chapters[0], pos) {
        assert(chapters.len() > 1);
        assert(chapter_end(chapters[0]) == chapter_start(chapters[1]));
        let rest = chapters.drop_first();
        assert forall|i: int| 0 <= i < rest.len() - 1 implies chapter_end(#[trigger] rest[i]) == chapter_start(rest[i + 1]) by {
            assert(rest[i] == chapters[i + 1]);
            assert(rest[i + 1] == chapters[i + 2]);
        }
        assert(rest.last() == chapters.last());
        lemma_contiguous_spanned(rest, pos);
    }
}

/// With contiguous chapters and playback within them, "previous" never goes
/// past where playback stands: it goes back to the start of the chapter
/// playing, of the one before, or of the file.
pub proof fn law_previous_goes_back(chapters: Seq<MediaSourceChapter>, pos: int)
    requires
        chapters.len() > 0,
        chapters_contiguous(chapters),
        chapter_start(chapters[0]) <= pos <= chapter_end(chapters.last()),
    ensures
        current_chapter_spec(chapters, pos) is Some,
        0 <= previous_target_spec(chapters, pos) <= pos,
{
    lemma_contiguous_spanned(chapters, pos);
    lemma_first_spanning(chapters, pos);
    let j = first_spanning(chapters, pos);
    if j > 0 {
        assert(chapter_end(chapters[j - 1]) == chapter_start(chapters[j]));
    }
}

/// "Next" always moves forward: it seeks to a chapter that starts after
/// where playback stands, the first such one.
pub proof fn law_next_goes_forward(chapters: Seq<MediaSourceChapter>, pos: int)
    ensures
        next_chapter_spec(chapters, pos) matches Some(i) ==> {
            &&& 0 <= i < chapters.len()
            &&& chapter_start(chapters[i]) > pos
            &&& forall|j: int| 0 <= j < i ==> chapter_start(#[trigger] chapters[j]) <= pos
        },
{
    lemma_first_after(chapters, pos);
}


/// How far one step of rewinding or fast-forwarding seeks, in milliseconds.
pub const REPEAT_SEEK_MILLIS: i64 = 15_000;

/// What the player does for a command.
#[derive(Debug, PartialEq, Eq)]
pub enum PlayerAction {
    /// Play the test tones.
    PlayTestTones,
    /// Load the item with this id (unless it is loaded already), at this
    /// position.
    Load(String, Duration),
    /// Load the item with this id from its beginning and, once loaded,
    /// toggle playback.
    LoadThenToggle(String),
    /// Take this listening session over.
    AdoptSession(String),
    Play,
    Pause,
    TogglePlayback,
    /// Report whether the loaded item plays or is paused.
    ReportStatus,
    /// Report that the player stops, and stop.
    Stop,
    /// Seek to this position and report it.
    SeekAndReport(Duration),
    /// Seek to this position.
    Seek(Duration),
    /// Skip to the next track.
    SkipTrack,
    /// Stop a running rewind or fast-forward.
    CancelRepeat,
    /// Seek by this many milliseconds again and again until cancelled.
    StartRepeat(i64),
    VolumeUp,
    VolumeDown,
}

/// What the player does for a command, with the chapters of the loaded
/// item and playback at `pos`.
pub open spec fn command_actions(command: PlayerCommand, chapters: Seq<MediaSourceChapter>, pos: Duration) -> Seq<PlayerAction> {
    match command {
        PlayerCommand::Update(id) => seq![PlayerAction::LoadThenToggle(id), PlayerAction::ReportStatus],
        PlayerCommand::PlayTest => seq![PlayerAction::PlayTestTones],
        PlayerCommand::PlayMedia(id, position) => seq![
            PlayerAction::Load(id, position),
            PlayerAction::Play,
            PlayerAction::ReportStatus,
        ],
        PlayerCommand::RestoreLastSession(h) => seq![
            PlayerAction::AdoptSession(h.session_key),
            PlayerAction::Load(h.item.id, h.position),
            PlayerAction::ReportStatus,
        ],
        PlayerCommand::Pause => seq![PlayerAction::Pause, PlayerAction::ReportStatus],
        PlayerCommand::Stop => seq![PlayerAction::Stop],
        PlayerCommand::Play => seq![PlayerAction::Play, PlayerAction::ReportStatus],
        PlayerCommand::Toggle => seq![PlayerAction::TogglePlayback, PlayerAction::ReportStatus],
        PlayerCommand::CancelOngoing => seq![PlayerAction::CancelRepeat],
        PlayerCommand::Rewind => seq![PlayerAction::StartRepeat(-15_000i64)],
        PlayerCommand::FastForward => seq![PlayerAction::StartRepeat(15_000i64)],
        PlayerCommand::IncreaseVolume => seq![PlayerAction::VolumeUp],
        PlayerCommand::DecreaseVolume => seq![PlayerAction::VolumeDown],
        PlayerCommand::SeekTo(_) => Seq::empty(),
        // the seek positions of these are stated by `plan_command`
        PlayerCommand::Next => Seq::empty(),
        PlayerCommand::Previous => Seq::empty(),
        PlayerCommand::SeekRelative(_) => Seq::empty(),
    }
}

/// What the player does for a command, with the chapters of the loaded
/// item and playback at `pos`: loading, playing, pausing and reporting as
/// `command_actions` says; for "next" a seek to the next chapter (or a skip
/// to the next track), for "previous" a seek as `previous_target` says, and
/// for a relative seek one as `seek_relative_target` says.
pub fn plan_command(command: PlayerCommand, chapters: &Vec<MediaSourceChapter>, pos: Duration) -> (r: Vec<PlayerAction>)
    requires
        command is Previous ==> chapters_wf(chapters@),
        command matches PlayerCommand::SeekRelative(millis) ==> (
            nanos(pos) / 1_000_000 + millis <= i64::MAX && nanos(pos) / 1_000_000 <= i64::MAX),
    ensures
        match command {
            PlayerCommand::Next => match next_chapter_spec(chapters@, nanos(pos)) {
                Some(i) => r@ == seq![PlayerAction::SeekAndReport(chapters@[i].start)],
                None => r@ == seq![PlayerAction::SkipTrack],
            },
            PlayerCommand::Previous => r@.len() == 1 && (r@[0] matches PlayerAction::SeekAndReport(d)
                && nanos(d) == previous_target_spec(chapters@, nanos(pos))),
            PlayerCommand::SeekRelative(millis) => r@.len() == 1 && (r@[0] matches PlayerAction::Seek(d)
                && nanos(d) == seek_relative_millis(nanos(pos), millis as int) * 1_000_000),
            _ => r@ == command_actions(command, chapters@, pos),
        },
{
    let ghost c = command;
    let mut r: Vec<PlayerAction> = Vec::new();
    match command {
        PlayerCommand::Update(id) => {
            r.push(PlayerAction::LoadThenToggle(id));
            r.push(PlayerAction::ReportStatus);
        },
        PlayerCommand::PlayTest => {
            r.push(PlayerAction::PlayTestTones);
        },
        PlayerCommand::PlayMedia(id, position) => {
            r.push(PlayerAction::Load(id, position));
            r.push(PlayerAction::Play);
            r.push(PlayerAction::ReportStatus);
        },
        PlayerCommand::RestoreLastSession(h) => {
            let MediaSourceHistoryItem { item, session_key, position, date_modified: _ } = h;
            r.push(PlayerAction::AdoptSession(session_key));
            r.push(PlayerAction::Load(item.id, position));
            r.push(PlayerAction::ReportStatus);
        },
        PlayerCommand::Pause => {
            r.push(PlayerAction::Pause);
            r.push(PlayerAction::ReportStatus);
        },
        PlayerCommand::Stop => {
            r.push(PlayerAction::Stop);
        },
        PlayerCommand::Play => {
            r.push(PlayerAction::Play);
            r.push(PlayerAction::ReportStatus);
        },
        PlayerCommand::Next => {
            match next_target(chapters, pos) {
                Some(start) => r.push(PlayerAction::SeekAndReport(start)),
                None => r.push(PlayerAction::SkipTrack),
            }
        },
        PlayerCommand::Previous => {
            r.push(PlayerAction::SeekAndReport(previous_target(chapters, pos)));
        },
        PlayerCommand::Toggle => {
            r.push(PlayerAction::TogglePlayback);
            r.push(PlayerAction::ReportStatus);
        },
        PlayerCommand::Rewind => {
            r.push(PlayerAction::StartRepeat(-REPEAT_SEEK_MILLIS));
        },
        PlayerCommand::FastForward => {
            r.push(PlayerAction::StartRepeat(REPEAT_SEEK_MILLIS));
        },
        PlayerCommand::CancelOngoing => {
            r.push(PlayerAction::CancelRepeat);
        },
        PlayerCommand::SeekRelative(millis) => {
            r.push(PlayerAction::Seek(seek_relative_target(pos, millis)));
        },
        PlayerCommand::SeekTo(_) => {},
        PlayerCommand::IncreaseVolume => {
            r.push(PlayerAction::VolumeUp);
        },
        PlayerCommand::DecreaseVolume => {
            r.push(PlayerAction::VolumeDown);
        },
    }
    proof {
        match c {
            PlayerCommand::Next | PlayerCommand::Previous | PlayerCommand::SeekRelative(_) => {},
            _ => {
                assert(r@ =~= command_actions(c, chapters@, pos));
            },
        }
    }
    r
}

/// What the player does on its half-second tick.
#[derive(Debug, Clone, Copy, PartialEq, Eq, Structural)]
pub struct TickPlan {
    /// Report the position (when an item is loaded).
    pub report_position: bool,
    /// Write the position to the playback history.
    pub write_history: bool,
}

/// The tick with playback at `pos` (last reported at `last_pos`), playing or
/// paused, an item loaded or not, the history last written at
/// `last_history_update`, at the time `now`: the position is reported when
/// it moved and an item is loaded; the history is written while playing an
/// item, at most every five seconds.
pub fn plan_tick(
    pos: Duration,
    last_pos: Duration,
    paused: bool,
    has_item: bool,
    last_history_update: Duration,
    now: Duration,
) -> (r: TickPlan)
    ensures
        r.report_position == (has_item && nanos(pos) != nanos(last_pos)),
        r.write_history == (!paused && has_item && nanos(last_history_update) + 5_000_000_000 < nanos(now)),
{
    let report_position = has_item && position_changed(pos, last_pos);
    let write_history = !paused && has_item && history_update_due(last_history_update, now);
    TickPlan { report_position, write_history }
}

/// In contiguous chapters, a chapter ends no later than any later chapter
/// starts.
pub proof fn lemma_contiguous_ordered(chapters: Seq<MediaSourceChapter>, i: int, j: int)
    requires
        chapters_contiguous(chapters),
        0 <= i < j < chapters.len(),
    ensures
        chapter_end(chapters[i]) <= chapter_start(chapters[j]),
    decreases j - i,
{
    assert(chapter_end(chapters[i]) == chapter_start(chapters[i + 1]));
    if i + 1 < j {
        lemma_contiguous_ordered(chapters, i + 1, j);
        assert(nanos(chapters[i + 1].duration) >= 0);
    }
}

/// With contiguous chapters and playback inside chapter `j` (after its
/// start, up to its end), "previous" seeks to the start of chapter `j` when
/// playback is more than three seconds into it; otherwise to the start of
/// the chapter before, `j - 1`, and to the beginning of the file only when
/// no chapter comes before.
pub proof fn law_previous_seeks_to_chapter(chapters: Seq<MediaSourceChapter>, pos: int, j: int)
    requires
        chapters_contiguous(chapters),
        0 <= j < chapters.len(),
        chapter_start(chapters[j]) < pos <= chapter_end(chapters[j]),
    ensures
        pos - chapter_start(chapters[j]) > 3_000_000_000 ==>
            previous_target_spec(chapters, pos) == chapter_start(chapters[j]),
        pos - chapter_start(chapters[j]) <= 3_000_000_000 && j > 0 ==>
            previous_target_spec(chapters, pos) == chapter_start(chapters[j - 1]),
        pos - chapter_start(chapters[j]) <= 3_000_000_000 && j == 0 ==>
            previous_target_spec(chapters, pos) == 0,
{
    assert forall|i: int| 0 <= i < j implies !spans(#[trigger] chapters[i], pos) by {
        lemma_contiguous_ordered(chapters, i, j);
    }
    lemma_first_spanning_unique(chapters, pos, j);
}

/// A volume command asks for exactly the volume change of its direction,
/// and no other command changes the volume: whatever the chapters and
/// position, "increase" gives only a volume-up and "decrease" only a
/// volume-down.
pub proof fn law_volume_commands(command: PlayerCommand, chapters: Seq<MediaSourceChapter>, pos: Duration)
    ensures
        command_actions(command, chapters, pos).contains(PlayerAction::VolumeUp)
            <==> command is IncreaseVolume,
        command_actions(command, chapters, pos).contains(PlayerAction::VolumeDown)
            <==> command is DecreaseVolume,
        command is IncreaseVolume ==> command_actions(command, chapters, pos) == seq![PlayerAction::VolumeUp],
        command is DecreaseVolume ==> command_actions(command, chapters, pos) == seq![PlayerAction::VolumeDown],
{
    let a = command_actions(command, chapters, pos);
    if command is IncreaseVolume {
        assert(a[0] == PlayerAction::VolumeUp);
        assert(!a.contains(PlayerAction::VolumeDown));
    } else if command is DecreaseVolume {
        assert(a[0] == PlayerAction::VolumeDown);
        assert(!a.contains(PlayerAction::VolumeUp));
    } else {
        assert forall|k: int| 0 <= k < a.len() implies a[k] != PlayerAction::VolumeUp
            && a[k] != PlayerAction::VolumeDown by {
        }
    }
}

} // verus!
