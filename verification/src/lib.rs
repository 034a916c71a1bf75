//! Decision logic of the TieZ clipboard shell: startup settings, edge docking,
//! window events, shortcuts and interface sounds.
//!
//! Every module turns what was observed (stored settings, window geometry, clock
//! readings, sound volumes) into values and plans. The surrounding program makes
//! the observations and carries the plans out.

pub mod analytics;
pub mod apps;
pub mod bundled_sound;
pub mod clock;
pub mod decimal;
pub mod edge_dock;
pub mod geometry;
pub mod laws;
pub mod macos_sound;
pub mod paste_key_monitor;
pub mod plan;
pub mod platform;
pub mod rounding;
pub mod settings_store;
pub mod shortcuts;
pub mod startup;
pub mod startup_settings;
pub mod text;
pub mod ui_sound;
pub mod volume;
pub mod wav;
pub mod win_clipboard;
pub mod window_events;
pub mod window_ext;
pub mod window_tracker;
