//! What the player's user interface computes: the clock text of a playback
//! position, and the navigation history of its pages.
use vstd::prelude::*;
use std::time::Duration;
use crate::text::{decimal, pad2, push_char, push_decimal_pad2};
use crate::time::{duration_as_millis, nanos};

verus! {

/// `HH:MM:SS` for a number of milliseconds: hours, minutes below 60 and
/// seconds below 60, each padded with `0` to two digits (hours may have
/// more).
pub open spec fn clock_text(millis: nat) -> Seq<char> {
    let secs = millis / 1000;
    let h = secs / 3600;
    let m = (secs / 60) % 60;
    let s = secs % 60;
    pad2(decimal(h)) + seq![':'] + pad2(decimal(m)) + seq![':'] + pad2(decimal(s))
}

/// The clock text of a number of milliseconds.
pub fn format_millis(millis: u128) -> (r: String)
    ensures
        r@ == clock_text(millis as nat),
{
    let secs = millis / 1000;
    let h = secs / (60 * 60);
    let m = (secs / 60) % 60;
    let s = secs % 60;
    let mut r = String::new();
    push_decimal_pad2(&mut r, h);
    push_char(&mut r, ':');
    push_decimal_pad2(&mut r, m);
    push_char(&mut r, ':');
    push_decimal_pad2(&mut r, s);
    r
}

/// The clock text of a duration, by its whole milliseconds.
pub fn format_duration(duration: Duration) -> (r: String)
    ensures
        r@ == clock_text((nanos(duration) / 1_000_000) as nat),
{
    format_millis(duration_as_millis(duration))
}




/// The longest the navigation history gets (plus the route just opened).
pub const HISTORY_LIMIT: i32 = 1000;

/// The page the user interface shows and the pages visited before, for going
/// back and forward. A route is a path of segments, such as
/// `["details", "42"]`.
pub struct NavigationHistory {
    route: Vec<String>,
    history: Vec<Vec<String>>,
    history_index: i32,
}

/// The pages of a history, each as its segments.
pub open spec fn routes_view(routes: Seq<Vec<String>>) -> Seq<Seq<String>> {
    routes.map_values(|r: Vec<String>| r@)
}

/// The history after opening `route` from `index`: the pages up to and
/// including `index`, then `route`; once the limit is reached, the oldest
/// page is dropped and the 999 after it are kept.
pub open spec fn pushed_history(history: Seq<Seq<String>>, index: int, route: Seq<String>) -> Seq<Seq<String>> {
    if index < 1000 {
        let kept = if index + 1 < history.len() { history.take(index + 1) } else { history };
        kept.push(route)
    } else {
        let rest = history.skip(1);
        let kept = if 999 < rest.len() { rest.take(999) } else { rest };
        kept.push(route)
    }
}

/// The index after opening a page from `index`.
pub open spec fn pushed_index(index: int) -> int {
    if index + 1 > 1000 {
        1000
    } else {
        index + 1
    }
}

impl NavigationHistory {
    /// The page shown.
    pub closed spec fn route(&self) -> Seq<String> {
        self.route@
    }

    /// The pages visited, oldest first.
    pub closed spec fn history(&self) -> Seq<Seq<String>> {
        routes_view(self.history@)
    }

    /// The position of the page shown in the history.
    pub closed spec fn index(&self) -> int {
        self.history_index as int
    }

    /// The index is at least -1 (nothing visited) and at most the limit, and
    /// at most the number of pages; the history holds at most one page more
    /// than the limit.
    pub open spec fn wf(&self) -> bool {
        &&& -1 <= self.index() <= 1000
        &&& self.index() <= self.history().len()
        &&& self.history().len() <= 1001
    }

    /// Nothing visited yet.
    pub fn new() -> (r: Self)
        ensures
            r.wf(),
            r.route() == Seq::<String>::empty(),
            r.history() == Seq::<Seq<String>>::empty(),
            r.index() == -1,
    {
        let r = NavigationHistory { route: Vec::new(), history: Vec::new(), history_index: -1 };
        assert(r.history() =~= Seq::<Seq<String>>::empty());
        r
    }

    /// The page shown.
    pub fn current_route(&self) -> (r: &Vec<String>)
        ensures
            r@ == self.route(),
    {
        &self.route
    }

    /// The position of the page shown in the history.
    pub fn history_index(&self) -> (r: i32)
        ensures
            r == self.index(),
    {
        self.history_index
    }

    /// The number of pages in the history.
    pub fn history_len(&self) -> (r: usize)
        ensures
            r == self.history().len(),
    {
        self.history.len()
    }

    /// Opens `route`: it is shown and added to the history after the page
    /// shown until now; pages after that one are dropped, and the oldest page
    /// is dropped when the history would pass its limit.
    pub fn navigate_to(&mut self, route: Vec<String>)
        requires
            old(self).wf(),
        ensures
            final(self).wf(),
            final(self).route() == route@,
            final(self).history() == pushed_history(old(self).history(), old(self).index(), route@),
            final(self).index() == pushed_index(old(self).index()),
    {
        let tmp_next_index = self.history_index + 1;
        let next_index = if tmp_next_index > HISTORY_LIMIT { HISTORY_LIMIT } else { tmp_next_index };
        let skip: usize = if tmp_next_index > HISTORY_LIMIT { 1 } else { 0 };
        let take = (next_index - skip as i32) as usize;
        let ghost old_history = self.history@;
        let mut new_history: Vec<Vec<String>> = Vec::new();
        let mut i: usize = skip;
        while i < self.history.len() && i - skip < take
            invariant
                skip <= 1,
                skip <= i <= self.history@.len(),
                i - skip <= take,
                self.history@ == old_history,
                new_history@.len() == i - skip,
                forall|j: int| 0 <= j < new_history@.len() ==> #[trigger] new_history@[j]@ == old_history[j + skip]@,
            decreases self.history@.len() - i,
        {
            new_history.push(self.history[i].clone());
            i = i + 1;
        }
        let route_copy = route.clone();
        new_history.push(route_copy);
        self.route = route;
        self.history = new_history;
        self.history_index = next_index;
        proof {
            let kept = routes_view(old_history).skip(skip as int);
            let kept = if take < kept.len() { kept.take(take as int) } else { kept };
            assert(routes_view(self.history@) =~= kept.push(route@));
        }
    }

    /// Goes `offset` pages back (negative) or forward (positive) in the
    /// history, when there is a page there; otherwise nothing changes.
    pub fn go_offset(&mut self, offset: i32)
        requires
            old(self).wf(),
            i32::MIN <= old(self).index() + offset <= i32::MAX,
        ensures
            final(self).wf(),
            final(self).history() == old(self).history(),
            ({
                let target = old(self).index() + offset;
                if 0 <= target < old(self).history().len() {
                    &&& final(self).index() == target
                    &&& final(self).route() == old(self).history()[target]
                } else {
                    &&& final(self).index() == old(self).index()
                    &&& final(self).route() == old(self).route()
                }
            }),
    {
        let new_index = self.history_index + offset;
        if 0 <= new_index && (new_index as usize) < self.history.len() {
            self.route = self.history[new_index as usize].clone();
            self.history_index = new_index;
        }
    }
}

/// Opening a page, when the history is below its limit and the page shown is
/// the last one, makes the new page the last one and the one shown; going
/// one page back then shows the page shown before, and one page forward
/// again shows the new page.
pub proof fn law_navigate_back_forward(history: Seq<Seq<String>>, index: int, route: Seq<String>)
    requires
        -1 <= index < 999,
        index == history.len() - 1,
    ensures
        ({
            let h = pushed_history(history, index, route);
            let i = pushed_index(index);
            &&& i == h.len() - 1
            &&& h[i] == route
            &&& h.take(i) == history
            &&& index >= 0 ==> h[i - 1] == history[index]
        }),
{
    let h = pushed_history(history, index, route);
    assert(history.skip(0) =~= history);
    assert(h.take(index + 1) =~= history);
}

/// Whatever is opened and wherever the user goes, the history never holds
/// more than one page more than its limit, and the index stays within it.
pub proof fn law_history_bounded(history: Seq<Seq<String>>, index: int, route: Seq<String>)
    requires
        -1 <= index <= 1000,
        index <= history.len(),
        history.len() <= 1001,
    ensures
        pushed_history(history, index, route).len() <= 1001,
        0 <= pushed_index(index) <= 1000,
        pushed_index(index) <= pushed_history(history, index, route).len(),
{
}

/// Opening a page keeps exactly the pages up to and including the one shown
/// and adds the new one after them: pages after the one shown are dropped.
/// At the limit, the oldest page is dropped as well.
pub proof fn law_navigate_drops_forward_pages(history: Seq<Seq<String>>, index: int, route: Seq<String>)
    ensures
        -1 <= index < 1000 && index + 1 <= history.len() ==>
            pushed_history(history, index, route) == history.take(index + 1).push(route),
        index == 1000 && history.len() >= 1000 ==>
            pushed_history(history, index, route) == history.subrange(1, 1000).push(route),
{
    if -1 <= index < 1000 && index + 1 <= history.len() {
        if index + 1 == history.len() {
            assert(history.take(index + 1) =~= history);
        }
    }
    if index == 1000 && history.len() >= 1000 {
        assert(history.skip(1).take(999) =~= history.subrange(1, 1000));
        if history.len() == 1000 {
            assert(history.skip(1) =~= history.subrange(1, 1000));
        }
    }
}

} // verus!
