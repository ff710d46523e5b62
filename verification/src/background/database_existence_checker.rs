//! Deciding which scanned files need their tags read and stored again.
use vstd::prelude::*;
use std::time::Duration;
use crate::entity::ItemModel;
use crate::time::{duration_lt, nanos};

verus! {

/// A file needs to be stored unless it has a row written after the file
/// was last modified (`file_modified` is `None` when the file's modification
/// time cannot be read).
pub open spec fn needs_upsert_spec(file_modified: Option<Duration>, record: Option<ItemModel>) -> bool {
    match (file_modified, record) {
        (Some(m), Some(r)) => nanos(r.date_modified) < nanos(m),
        _ => true,
    }
}

/// Whether a scanned file needs to be stored.
pub fn needs_upsert(file_modified: Option<Duration>, record_option: &Option<ItemModel>) -> (r: bool)
    ensures
        r == needs_upsert_spec(file_modified, *record_option),
{
    if let Some(modified) = file_modified {
        if let Some(record) = record_option {
            return duration_lt(record.date_modified, modified);
        }
    }
    true
}

} // verus!
