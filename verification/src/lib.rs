//! Core logic of a video snapshot and clip service: URL protocol
//! classification, ffmpeg command construction, execution-outcome
//! classification, clip retention planning, and an in-flight request counter.
use vstd::prelude::*;

pub mod command;
pub mod config;
pub mod counter;
pub mod error_image;
pub mod executor;
pub mod models;
pub mod protocol;
pub mod retention;
pub mod service;
pub mod stream;
pub mod strutil;

verus! {

/// Hard wall-clock limit, in seconds, on one run of the external media tool.
pub const DEFAULT_TIMEOUT_SECS: u64 = 30;

/// Default maximum number of clip files kept in the output directory.
pub const DEFAULT_RETENTION_CAP: usize = 100;

} // verus!
