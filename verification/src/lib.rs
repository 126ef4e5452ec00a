//! Watching a file grow: the decisions of a download monitor and the text it shows.
//!
//! The monitor is a state machine that takes one event per tick, `monitor::Monitor`.
//! Its figures are shown through `bytes::format_bytes` and `duration::format_duration`,
//! and a run ends with a `summary::Summary`. Reading the file's size, sleeping and
//! printing are the caller's part.

pub mod bytes;
pub mod cli;
pub mod decimal;
pub mod duration;
pub mod interrupt;
pub mod monitor;
pub mod rounding;
pub mod size;
pub mod status;
pub mod summary;
