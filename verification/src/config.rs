//! Where the player keeps its files.
use vstd::prelude::*;
use crate::text::{join_path, join_path_spec};

verus! {

/// The storage and media locations of the player, and the cache directory
/// derived from the storage location.
#[derive(Debug, Clone)]
pub struct Config {
    pub storage_path: String,
    pub media_path: String,
    pub cache_path: String,
}

/// The cache directory below a storage directory: `<storage>/.cache/`, with
/// the trailing slashes of `storage` removed first.
pub open spec fn cache_path_spec(storage_path: Seq<char>) -> Seq<char> {
    join_path_spec(storage_path, ".cache/"@)
}

impl Config {
    pub fn new(storage_path: String, media_path: String) -> (r: Self)
        ensures
            r.storage_path@ == storage_path@,
            r.media_path@ == media_path@,
            r.cache_path@ == cache_path_spec(storage_path@),
    {
        let cache_path = Self::cache_path(storage_path.clone());
        Self { storage_path, media_path, cache_path }
    }

    fn cache_path(storage_path: String) -> (r: String)
        ensures
            r@ == cache_path_spec(storage_path@),
    {
        join_path(storage_path.as_str(), ".cache/")
    }
}

} // verus!
