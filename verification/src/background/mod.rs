//! The player's background services: what each of them decides.

pub mod display_controller;
pub mod input_handler;
pub mod player;
pub mod database_updater;
pub mod file_media_source;
pub mod database_upsert_item;
pub mod database_existence_checker;
pub mod metadata_retriever;
pub mod scheduler;
pub mod gpio_pin;
pub mod gpio_handler;
pub mod headset_handler;
pub mod touch_handler;
pub mod battery_gauge;
pub mod file_scanner;
pub mod file_media_source_playback_history;
pub mod media_source;
