//! nanowave: the decision logic of a small portable audio player
//! (paths, metadata, chapters, input handling, display and scheduling),
//! stated with contracts and proved with Verus.

pub mod text;
pub mod config;
pub mod time;
pub mod ui;
pub mod input_event;
pub mod background;
pub mod media_source;
pub mod entity;
pub mod file_utils;
pub mod database_wrapper;
