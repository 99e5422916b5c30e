//! The snapshot service facade: classify the URL, build the command.
//! Execution and file I/O live in the embedding layer; everything here
//! is the pure planning half of `capture frame` and `clip video`.
use vstd::prelude::*;

use crate::command::{
    arg_views, build_capture_command, build_clip_command, protocol_args, spec_capture_args,
    spec_clip_args, spec_transport_args, CommandSpec,
};
use crate::protocol::{
    classify, spec_classify, spec_is_realtime, spec_is_vendor_camera, StreamProtocol,
};
use crate::strutil::has_substring;

verus! {

/// Builds capture and clip commands for arbitrary video sources.
#[derive(Clone)]
pub struct VideoSnapshotService;

/// A planned clip extraction: the generated file name, where the file
/// will stand in the clip directory, and the command producing it.
pub struct ClipPlan {
    pub filename: String,
    pub output_path: String,
    pub command: CommandSpec,
}

/// Relies on uuid::Uuid::new_v4 and its Display rendering: a random
/// version-4 UUID in the 36-character hyphenated form. The value is
/// random, so only its length is claimed; collisions between two tokens
/// are negligible but not impossible, and nothing here assumes
/// uniqueness.
#[verifier::external_body]
fn new_clip_token() -> (r: String)
    ensures
        r@.len() == 36,
{
    format!("{}", uuid::Uuid::new_v4())
}

impl VideoSnapshotService {
    /// A stateless service handle.
    pub fn new() -> (r: VideoSnapshotService) {
        VideoSnapshotService
    }

    /// Tags the protocol of a source URL; the local-file probe of the
    /// `File` rule is read from the filesystem.
    pub fn detect_protocol(url: &str) -> (p: StreamProtocol)
        ensures
            exists|local_file: bool| p == spec_classify(url@, local_file),
            has_substring(url@, "://"@) ==> p == spec_classify(url@, true),
    {
        classify(url)
    }

    /// The transport and robustness arguments of one protocol, with the
    /// vendor camera sub-policy applied to its RTSP sources.
    pub fn get_protocol_args(protocol: &StreamProtocol, url: &str) -> (r: Vec<String>)
        ensures
            arg_views(r@) == spec_transport_args(*protocol, spec_is_vendor_camera(url@)),
    {
        let vendor = crate::protocol::is_vendor_camera_url(url);
        protocol_args(protocol, vendor)
    }

    /// Whether the URL names a live stream (RTSP, RTMP or HLS) rather
    /// than a seekable source.
    pub fn is_realtime_stream(url: &str) -> (r: bool)
        ensures
            exists|local_file: bool| r == spec_is_realtime(spec_classify(url@, local_file)),
            has_substring(url@, "://"@) ==> r == spec_is_realtime(spec_classify(url@, true)),
    {
        let p = classify(url);
        proof {
            let local_file = choose|local_file: bool| p == spec_classify(url@, local_file);
            assert(spec_is_realtime(p) == spec_is_realtime(spec_classify(url@, local_file)));
        }
        match p {
            StreamProtocol::RTSP | StreamProtocol::RTMP | StreamProtocol::HLS => true,
            _ => false,
        }
    }

    /// Plans a single-frame capture into the caller-supplied output
    /// path: the full command for the URL's protocol, with the vendor
    /// camera override checked before generic protocol dispatch.
    pub fn plan_capture(url: &str, timestamp: u64, output_path: &str) -> (r: CommandSpec)
        ensures
            r.program@ == "ffmpeg"@,
            r.output_path@ == output_path@,
            exists|local_file: bool|
                arg_views(r.args@) == spec_capture_args(
                    url@,
                    spec_classify(url@, local_file),
                    timestamp,
                    output_path@,
                ),
            has_substring(url@, "://"@) ==> arg_views(r.args@) == spec_capture_args(
                url@,
                spec_classify(url@, true),
                timestamp,
                output_path@,
            ),
    {
        let p = classify(url);
        let r = build_capture_command(&p, url, timestamp, output_path);
        proof {
            let local_file = choose|local_file: bool| p == spec_classify(url@, local_file);
            assert(arg_views(r.args@) == spec_capture_args(
                url@,
                spec_classify(url@, local_file),
                timestamp,
                output_path@,
            ));
        }
        r
    }

    /// Plans a clip extraction: generates a fresh `.mp4` file name from
    /// a random token, places it in the clip directory, and builds the
    /// full command. A positive duration is the validation boundary of
    /// the caller, enforced here as a precondition.
    pub fn plan_clip(url: &str, start: u64, duration: u64, clips_dir: &str) -> (r: ClipPlan)
        requires
            duration > 0,
        ensures
            r.command.program@ == "ffmpeg"@,
            r.filename@.len() == 40,
            ".mp4"@.is_suffix_of(r.filename@),
            r.output_path@ == clips_dir@ + "/"@ + r.filename@,
            r.command.output_path@ == r.output_path@,
            exists|local_file: bool|
                arg_views(r.command.args@) == spec_clip_args(
                    url@,
                    spec_classify(url@, local_file),
                    start,
                    duration,
                    r.output_path@,
                ),
            has_substring(url@, "://"@) ==> arg_views(r.command.args@) == spec_clip_args(
                url@,
                spec_classify(url@, true),
                start,
                duration,
                r.output_path@,
            ),
    {
        let token = new_clip_token();
        let filename = token.concat(".mp4");
        proof {
            reveal_strlit(".mp4");
            assert(filename@.subrange(36, 40) =~= ".mp4"@);
        }
        let output_path = String::from_str(clips_dir).concat("/").concat(filename.as_str());
        let p = classify(url);
        let command = build_clip_command(&p, url, start, duration, output_path.as_str());
        proof {
            let local_file = choose|local_file: bool| p == spec_classify(url@, local_file);
            assert(arg_views(command.args@) == spec_clip_args(
                url@,
                spec_classify(url@, local_file),
                start,
                duration,
                output_path@,
            ));
        }
        ClipPlan { filename, output_path, command }
    }
}

} // verus!
