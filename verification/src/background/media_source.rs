//! Requests to the media library from the user interface: each carries the
//! query and the callback that takes the answer.
use vstd::prelude::*;
use crate::media_source::MediaSourceItem;

verus! {

/// A search: the query, and what to do with the items found.
pub struct FilterCommand<F: FnOnce(Vec<MediaSourceItem>)> {
    pub query: String,
    pub callback: F,
}

/// A lookup: the id, and what to do with the item, if there is one.
pub struct FindCommand<G: FnOnce(Option<MediaSourceItem>)> {
    pub id: String,
    pub callback: G,
}

/// A request to the media library.
pub enum MediaSourceCommand<F: FnOnce(Vec<MediaSourceItem>), G: FnOnce(Option<MediaSourceItem>)> {
    Filter(FilterCommand<F>),
    Find(FindCommand<G>),
}

} // verus!
