//! Idle-time detection core.
//!
//! An activity clock records when input was last seen, an idle sampler
//! decides on each tick whether a new idle episode has crossed the
//! threshold, and the record module renders the line that is appended to
//! the log for it.

pub mod clock;
pub mod sampler;
pub mod episodes;
pub mod record;
pub mod decimal;
pub mod config;
pub mod listener;
