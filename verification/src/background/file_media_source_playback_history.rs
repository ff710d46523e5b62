//! Keeping the playback history: one row per item and listening session.
use vstd::prelude::*;
use crate::text::str_equals;

verus! {

/// How a playback position is written.
#[derive(Debug, Clone, Copy, PartialEq, Eq, Structural)]
pub enum HistoryUpsert {
    /// Move the latest row of the item to the new position.
    UpdateLatest,
    /// Write a new row (when the item exists).
    CreateNew,
}

/// Which rows the latest one is looked for among: those of the item
/// `item_id`, or all rows for the empty id.
pub fn latest_filter(item_id: &str) -> (r: Option<String>)
    ensures
        item_id@.len() == 0 ==> r is None,
        item_id@.len() > 0 ==> (r matches Some(id) && id@ == item_id@),
{
    if item_id.unicode_len() == 0 {
        None
    } else {
        Some(String::from_str(item_id))
    }
}

/// How a position reached in the session `session_key` is written, given
/// the session of the item's latest row (`None`: it has none): the row of
/// the same session is moved on, any other session gets a new row.
pub fn upsert_plan(latest_session_key: Option<&str>, session_key: &str) -> (r: HistoryUpsert)
    ensures
        r == (match latest_session_key {
            Some(k) => if k@ == session_key@ {
                HistoryUpsert::UpdateLatest
            } else {
                HistoryUpsert::CreateNew
            },
            None => HistoryUpsert::CreateNew,
        }),
{
    match latest_session_key {
        Some(k) => if str_equals(k, session_key) {
            HistoryUpsert::UpdateLatest
        } else {
            HistoryUpsert::CreateNew
        },
        None => HistoryUpsert::CreateNew,
    }
}

} // verus!
