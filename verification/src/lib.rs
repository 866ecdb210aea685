//! Windowed driver-state classifier.
//!
//! Events from two sensor streams (a categorical mood signal and a numeric
//! heart-rate signal) accumulate in an [`buffer::EventBuffer`]. Once per
//! window the scheduler drains the buffer atomically and derives a single
//! advisory drive-mode decision: [`mood::analyze_mood_patterns`] reduces the
//! mood batch to an emotion label, [`heart_rate::analyze_heartbeat_patterns`]
//! reduces the heart-rate batch to a heartbeat label, and
//! [`drive_mode::determine_drive_mode`] combines the two labels through a
//! fixed priority table. Transport, configuration and logging live outside
//! this crate; it exchanges only plain values with its callers.

pub mod buffer;
pub mod drive_mode;
pub mod heart_rate;
pub mod mood;
pub mod types;
pub mod window;
