//! Save-data location, configuration flag and slot activities for the
//! save file installer of The Binding of Isaac: Rebirth and its expansions.
//!
//! The library decides; it touches neither the file system nor the console.
//! A caller performs the probes, reads and writes that the library hands out
//! and gives the outcome back as a plain value.

pub mod backup;
pub mod change_steam_cloud;
pub mod constants;
pub mod delete;
pub mod effect;
pub mod enums;
pub mod error;
pub mod get_input;
pub mod install;
pub mod lookup;
pub mod options;
pub mod options_ini;
pub mod path;
pub mod save_data_path;
pub mod save_files;
pub mod save_slots;
pub mod text;
pub mod utils;
