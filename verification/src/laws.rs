//! What the library promises of its functions as a whole.
//!
//! Each law speaks of results that calls may return, by `call_ensures`, and relates them
//! to the inputs of the calls: which results there are on which inputs, and how the
//! results of two calls belong together. Keys, names and limits are written out.

pub mod docking;
pub mod fallbacks;
pub mod paste_keys;
pub mod reports;
pub mod settings;
pub mod shortcuts;
pub mod sounds;
pub mod startup;
pub mod texts;
pub mod volumes;
pub mod windows;
