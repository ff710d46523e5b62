//! A file on its way from the scanner to the database.
use vstd::prelude::*;
use crate::entity::ItemModel;
use crate::media_source::MediaSourceItem;

verus! {

/// A scanned file: its path, its file id (the debug text of the file
/// system's id for it, as the scanner formats it), the library item read
/// from it once its tags are read, and its row if it is stored already.
#[derive(Debug, PartialEq, Eq)]
pub struct DatabaseUpsertItem {
    pub file: String,
    pub file_id: String,
    pub media_source_item: Option<MediaSourceItem>,
    pub model: Option<ItemModel>,
}

} // verus!
