//! Decision engine that keeps a reactive media stream aligned with a base
//! stream played at a fixed offset.
//!
//! Playback positions and the offset are whole microseconds (`i64`); wall-clock
//! times are whole milliseconds (`u64`); the advisory polling interval is in
//! milliseconds (`u32`). Wall-clock readings are supplied by the caller, so
//! the engine never reads a clock itself.
use vstd::prelude::*;

pub mod model;
pub mod engine;
pub mod laws;

pub use engine::SyncEngine;
