//! Request and response shapes of the two logical operations, and the
//! shared application state. Time parameters are whole seconds;
//! `timestamp` and `start` default to zero when absent, and a clip's
//! duration must be positive - the validation boundary sits in front of
//! the command builder.
use vstd::prelude::*;

use crate::counter::InFlightCounter;
use crate::service::VideoSnapshotService;
use crate::strutil::{spec_decimal, u64_to_string};

verus! {

/// State shared by all concurrent requests: the in-flight counter and
/// the stateless snapshot service.
pub struct AppState {
    pub concurrent_requests: InFlightCounter,
    pub video_service: VideoSnapshotService,
}

/// A single-frame capture request.
pub struct SnapshotRequest {
    pub url: String,
    /// Offset into the source, in seconds; the start when absent.
    pub timestamp: Option<u64>,
}

/// A time-bounded clip request.
pub struct ClipRequest {
    pub url: String,
    /// Clip start offset, in seconds; the start when absent.
    pub start: Option<u64>,
    /// Clip length in seconds; must be positive.
    pub duration: u64,
    /// Whether to answer with the clip's URL (the default) or its bytes.
    pub return_url: Option<bool>,
}

/// A clip answered by reference.
pub struct ClipResponse {
    pub video_url: String,
}

/// The advisory in-flight statistics.
pub struct ConcurrentStats {
    pub current_requests: usize,
    pub message: String,
}

/// The value of an optional seconds field, zero when absent.
pub open spec fn spec_seconds_or_zero(v: Option<u64>) -> u64 {
    match v {
        Some(s) => s,
        None => 0,
    }
}

impl SnapshotRequest {
    /// The capture offset, defaulting to the start of the source.
    pub fn effective_timestamp(&self) -> (r: u64)
        ensures
            r == spec_seconds_or_zero(self.timestamp),
    {
        match self.timestamp {
            Some(s) => s,
            None => 0,
        }
    }
}

impl ClipRequest {
    /// The clip start offset, defaulting to the start of the source.
    pub fn effective_start(&self) -> (r: u64)
        ensures
            r == spec_seconds_or_zero(self.start),
    {
        match self.start {
            Some(s) => s,
            None => 0,
        }
    }

    /// Whether the caller wants a URL back rather than raw bytes; URL by
    /// default.
    pub fn wants_url(&self) -> (r: bool)
        ensures
            r == (match self.return_url {
                Some(b) => b,
                None => true,
            }),
    {
        match self.return_url {
            Some(b) => b,
            None => true,
        }
    }

    /// The validation boundary of the clip pipeline: a request is valid
    /// exactly when its duration is positive. Invalid requests are
    /// rejected before any command is built.
    pub fn validate(&self) -> (r: bool)
        ensures
            r == (self.duration > 0),
    {
        self.duration > 0
    }
}

impl ConcurrentStats {
    /// Builds the advisory statistics for a read of the counter.
    pub fn for_count(current_requests: usize) -> (r: ConcurrentStats)
        ensures
            r.current_requests == current_requests,
            r.message@ == "requests in flight: "@ + spec_decimal(current_requests as nat),
    {
        let mut message = String::from_str("requests in flight: ");
        message.append(u64_to_string(current_requests as u64).as_str());
        ConcurrentStats { current_requests, message }
    }
}

} // verus!
