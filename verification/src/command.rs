//! Command construction for the external media tool. A command is built
//! as an immutable value - program name, ordered argument list, output
//! path - before any process is spawned, so the exact argument sequence
//! of every protocol and operation is pinned by the contracts here.
use vstd::prelude::*;

use crate::protocol::{spec_is_vendor_camera, StreamProtocol};
use crate::strutil::{spec_decimal, u64_to_string};

verus! {

/// A fully built invocation of the external media tool.
pub struct CommandSpec {
    pub program: String,
    pub args: Vec<String>,
    pub output_path: String,
}

/// The character sequences of an argument list.
pub open spec fn arg_views(args: Seq<String>) -> Seq<Seq<char>> {
    args.map_values(|s: String| s@)
}

/// Appends one literal argument.
fn push_arg(args: &mut Vec<String>, s: &str)
    ensures
        arg_views(final(args)@) == arg_views(old(args)@).push(s@),
{
    args.push(String::from_str(s));
    proof {
        assert(arg_views(args@) =~= arg_views(old(args)@).push(s@));
    }
}

/// Appends the decimal rendering of a number of seconds.
fn push_seconds(args: &mut Vec<String>, n: u64)
    ensures
        arg_views(final(args)@) == arg_views(old(args)@).push(spec_decimal(n as nat)),
{
    args.push(u64_to_string(n));
    proof {
        assert(arg_views(args@) =~= arg_views(old(args)@).push(spec_decimal(n as nat)));
    }
}

/// The fixed user agent sent on HTTP-based sources.
pub open spec fn spec_user_agent() -> Seq<char> {
    "Mozilla/5.0 (compatible; VideoServer/1.0)"@
}

/// Transport and robustness arguments per protocol. `vendor` marks the
/// camera whose devices stall under verbose probing: its RTSP sources get
/// a shorter analyze/probe budget and low-delay flags.
pub open spec fn spec_transport_args(p: StreamProtocol, vendor: bool) -> Seq<Seq<char>> {
    match p {
        StreamProtocol::RTSP => {
            if vendor {
                seq![
                    "-rtsp_transport"@,
                    "tcp"@,
                    "-fflags"@,
                    "nobuffer"@,
                    "-flags"@,
                    "low_delay"@,
                    "-strict"@,
                    "experimental"@,
                    "-analyzeduration"@,
                    "1000000"@,
                    "-probesize"@,
                    "1000000"@,
                    "-timeout"@,
                    "10000000"@,
                    "-thread_queue_size"@,
                    "512"@,
                ]
            } else {
                seq![
                    "-rtsp_transport"@,
                    "tcp"@,
                    "-timeout"@,
                    "10000000"@,
                    "-reconnect"@,
                    "1"@,
                    "-reconnect_streamed"@,
                    "1"@,
                    "-reconnect_delay_max"@,
                    "5"@,
                    "-analyzeduration"@,
                    "5000000"@,
                    "-probesize"@,
                    "5000000"@,
                ]
            }
        },
        StreamProtocol::RTMP => seq![
            "-reconnect"@,
            "1"@,
            "-reconnect_streamed"@,
            "1"@,
            "-timeout"@,
            "10000000"@,
            "-analyzeduration"@,
            "2000000"@,
            "-probesize"@,
            "2000000"@,
        ],
        StreamProtocol::HLS => seq![
            "-user_agent"@,
            spec_user_agent(),
            "-timeout"@,
            "10000000"@,
            "-analyzeduration"@,
            "3000000"@,
            "-probesize"@,
            "3000000"@,
        ],
        StreamProtocol::HTTP => seq![
            "-user_agent"@,
            spec_user_agent(),
            "-timeout"@,
            "10000000"@,
        ],
        StreamProtocol::File => seq![],
        StreamProtocol::Unknown => seq![
            "-timeout"@,
            "10000000"@,
            "-analyzeduration"@,
            "3000000"@,
            "-probesize"@,
            "3000000"@,
        ],
    }
}

/// Codec policy for clips. Live feeds (RTSP/RTMP) and local files copy the
/// video stream and re-encode audio for container compatibility; HLS
/// segments are not reliably stream-copyable, so they are re-encoded in
/// full at a fast preset; plain HTTP sources copy the video stream with no
/// forced audio re-encode; unknown containers get a conservative
/// re-encode.
pub open spec fn spec_codec_args(p: StreamProtocol) -> Seq<Seq<char>> {
    match p {
        StreamProtocol::RTSP | StreamProtocol::RTMP | StreamProtocol::File => seq![
            "-c:v"@,
            "copy"@,
            "-c:a"@,
            "aac"@,
            "-b:a"@,
            "128k"@,
        ],
        StreamProtocol::HLS => seq![
            "-c:v"@,
            "libx264"@,
            "-preset"@,
            "fast"@,
            "-crf"@,
            "23"@,
            "-c:a"@,
            "aac"@,
            "-b:a"@,
            "128k"@,
        ],
        StreamProtocol::HTTP => seq!["-c:v"@, "copy"@],
        StreamProtocol::Unknown => seq!["-c:v"@, "libx264"@, "-preset"@, "fast"@],
    }
}

/// The minimal, camera-tolerant snapshot arguments for vendor camera URLs:
/// forced TCP and low-delay flags, none of the generic analyze/probe
/// options, and the first decodable frame rather than a seek.
pub open spec fn spec_vendor_snapshot_args(url: Seq<char>, out: Seq<char>) -> Seq<Seq<char>> {
    seq![
        "-rtsp_transport"@,
        "tcp"@,
        "-timeout"@,
        "10000000"@,
        "-fflags"@,
        "nobuffer"@,
        "-flags"@,
        "low_delay"@,
        "-strict"@,
        "experimental"@,
        "-thread_queue_size"@,
        "512"@,
        "-i"@,
        url,
        "-vframes"@,
        "1"@,
        "-q:v"@,
        "2"@,
        "-f"@,
        "image2"@,
        "-y"@,
        out,
    ]
}

/// The minimal, camera-tolerant clip arguments for vendor camera URLs:
/// forced TCP, low-delay flags and a direct stream copy.
pub open spec fn spec_vendor_clip_args(
    url: Seq<char>,
    start: u64,
    duration: u64,
    out: Seq<char>,
) -> Seq<Seq<char>> {
    seq![
        "-rtsp_transport"@,
        "tcp"@,
        "-timeout"@,
        "10000000"@,
        "-fflags"@,
        "nobuffer+genpts"@,
        "-flags"@,
        "low_delay"@,
        "-strict"@,
        "experimental"@,
        "-thread_queue_size"@,
        "512"@,
        "-ss"@,
        spec_decimal(start as nat),
        "-i"@,
        url,
        "-t"@,
        spec_decimal(duration as nat),
        "-c"@,
        "copy"@,
        "-avoid_negative_ts"@,
        "make_zero"@,
        "-y"@,
        out,
    ]
}

/// The full argument list of a single-frame capture.
pub open spec fn spec_capture_args(
    url: Seq<char>,
    p: StreamProtocol,
    timestamp: u64,
    out: Seq<char>,
) -> Seq<Seq<char>> {
    if spec_is_vendor_camera(url) {
        spec_vendor_snapshot_args(url, out)
    } else {
        spec_transport_args(p, false) + seq![
            "-i"@,
            url,
            "-ss"@,
            spec_decimal(timestamp as nat),
            "-vframes"@,
            "1"@,
            "-q:v"@,
            "2"@,
            "-f"@,
            "image2"@,
            "-y"@,
            out,
        ]
    }
}

/// The full argument list of a time-bounded clip.
pub open spec fn spec_clip_args(
    url: Seq<char>,
    p: StreamProtocol,
    start: u64,
    duration: u64,
    out: Seq<char>,
) -> Seq<Seq<char>> {
    if spec_is_vendor_camera(url) {
        spec_vendor_clip_args(url, start, duration, out)
    } else {
        spec_transport_args(p, false) + seq![
            "-ss"@,
            spec_decimal(start as nat),
            "-i"@,
            url,
            "-t"@,
            spec_decimal(duration as nat),
        ] + spec_codec_args(p) + seq!["-y"@, out]
    }
}

/// Builds the transport and robustness arguments for one protocol, with
/// the vendor camera sub-policy for RTSP.
pub fn protocol_args(p: &StreamProtocol, vendor: bool) -> (r: Vec<String>)
    ensures
        arg_views(r@) == spec_transport_args(*p, vendor),
{
    let mut args: Vec<String> = Vec::new();
    match p {
        StreamProtocol::RTSP => {
            if vendor {
                push_arg(&mut args, "-rtsp_transport");
                push_arg(&mut args, "tcp");
                push_arg(&mut args, "-fflags");
                push_arg(&mut args, "nobuffer");
                push_arg(&mut args, "-flags");
                push_arg(&mut args, "low_delay");
                push_arg(&mut args, "-strict");
                push_arg(&mut args, "experimental");
                push_arg(&mut args, "-analyzeduration");
                push_arg(&mut args, "1000000");
                push_arg(&mut args, "-probesize");
                push_arg(&mut args, "1000000");
                push_arg(&mut args, "-timeout");
                push_arg(&mut args, "10000000");
                push_arg(&mut args, "-thread_queue_size");
                push_arg(&mut args, "512");
            } else {
                push_arg(&mut args, "-rtsp_transport");
                push_arg(&mut args, "tcp");
                push_arg(&mut args, "-timeout");
                push_arg(&mut args, "10000000");
                push_arg(&mut args, "-reconnect");
                push_arg(&mut args, "1");
                push_arg(&mut args, "-reconnect_streamed");
                push_arg(&mut args, "1");
                push_arg(&mut args, "-reconnect_delay_max");
                push_arg(&mut args, "5");
                push_arg(&mut args, "-analyzeduration");
                push_arg(&mut args, "5000000");
                push_arg(&mut args, "-probesize");
                push_arg(&mut args, "5000000");
            }
        },
        StreamProtocol::RTMP => {
            push_arg(&mut args, "-reconnect");
            push_arg(&mut args, "1");
            push_arg(&mut args, "-reconnect_streamed");
            push_arg(&mut args, "1");
            push_arg(&mut args, "-timeout");
            push_arg(&mut args, "10000000");
            push_arg(&mut args, "-analyzeduration");
            push_arg(&mut args, "2000000");
            push_arg(&mut args, "-probesize");
            push_arg(&mut args, "2000000");
        },
        StreamProtocol::HLS => {
            push_arg(&mut args, "-user_agent");
            push_arg(&mut args, "Mozilla/5.0 (compatible; VideoServer/1.0)");
            push_arg(&mut args, "-timeout");
            push_arg(&mut args, "10000000");
            push_arg(&mut args, "-analyzeduration");
            push_arg(&mut args, "3000000");
            push_arg(&mut args, "-probesize");
            push_arg(&mut args, "3000000");
        },
        StreamProtocol::HTTP => {
            push_arg(&mut args, "-user_agent");
            push_arg(&mut args, "Mozilla/5.0 (compatible; VideoServer/1.0)");
            push_arg(&mut args, "-timeout");
            push_arg(&mut args, "10000000");
        },
        StreamProtocol::File => {},
        StreamProtocol::Unknown => {
            push_arg(&mut args, "-timeout");
            push_arg(&mut args, "10000000");
            push_arg(&mut args, "-analyzeduration");
            push_arg(&mut args, "3000000");
            push_arg(&mut args, "-probesize");
            push_arg(&mut args, "3000000");
        },
    }
    proof {
        assert(arg_views(args@) =~= spec_transport_args(*p, vendor));
    }
    args
}

/// Appends the clip codec policy of one protocol.
fn push_codec_args(args: &mut Vec<String>, p: &StreamProtocol)
    ensures
        arg_views(final(args)@) == arg_views(old(args)@) + spec_codec_args(*p),
{
    match p {
        StreamProtocol::RTSP | StreamProtocol::RTMP | StreamProtocol::File => {
            push_arg(args, "-c:v");
            push_arg(args, "copy");
            push_arg(args, "-c:a");
            push_arg(args, "aac");
            push_arg(args, "-b:a");
            push_arg(args, "128k");
        },
        StreamProtocol::HLS => {
            push_arg(args, "-c:v");
            push_arg(args, "libx264");
            push_arg(args, "-preset");
            push_arg(args, "fast");
            push_arg(args, "-crf");
            push_arg(args, "23");
            push_arg(args, "-c:a");
            push_arg(args, "aac");
            push_arg(args, "-b:a");
            push_arg(args, "128k");
        },
        StreamProtocol::HTTP => {
            push_arg(args, "-c:v");
            push_arg(args, "copy");
        },
        StreamProtocol::Unknown => {
            push_arg(args, "-c:v");
            push_arg(args, "libx264");
            push_arg(args, "-preset");
            push_arg(args, "fast");
        },
    }
    proof {
        assert(arg_views(args@) =~= arg_views(old(args)@) + spec_codec_args(*p));
    }
}

/// Appends one argument holding a caller-supplied string.
fn push_value(args: &mut Vec<String>, s: &str)
    ensures
        arg_views(final(args)@) == arg_views(old(args)@).push(s@),
{
    args.push(String::from_str(s));
    proof {
        assert(arg_views(args@) =~= arg_views(old(args)@).push(s@));
    }
}

/// Builds the complete capture command for a classified URL. The vendor
/// camera override is applied before generic protocol dispatch.
pub fn build_capture_command(
    p: &StreamProtocol,
    url: &str,
    timestamp: u64,
    output_path: &str,
) -> (r: CommandSpec)
    ensures
        r.program@ == "ffmpeg"@,
        r.output_path@ == output_path@,
        arg_views(r.args@) == spec_capture_args(url@, *p, timestamp, output_path@),
{
    let vendor = crate::protocol::is_vendor_camera_url(url);
    let mut args: Vec<String>;
    if vendor {
        args = Vec::new();
        push_arg(&mut args, "-rtsp_transport");
        push_arg(&mut args, "tcp");
        push_arg(&mut args, "-timeout");
        push_arg(&mut args, "10000000");
        push_arg(&mut args, "-fflags");
        push_arg(&mut args, "nobuffer");
        push_arg(&mut args, "-flags");
        push_arg(&mut args, "low_delay");
        push_arg(&mut args, "-strict");
        push_arg(&mut args, "experimental");
        push_arg(&mut args, "-thread_queue_size");
        push_arg(&mut args, "512");
        push_arg(&mut args, "-i");
        push_value(&mut args, url);
        push_arg(&mut args, "-vframes");
        push_arg(&mut args, "1");
        push_arg(&mut args, "-q:v");
        push_arg(&mut args, "2");
        push_arg(&mut args, "-f");
        push_arg(&mut args, "image2");
        push_arg(&mut args, "-y");
        push_value(&mut args, output_path);
        proof {
            assert(arg_views(args@) =~= spec_vendor_snapshot_args(url@, output_path@));
        }
    } else {
        args = protocol_args(p, false);
        push_arg(&mut args, "-i");
        push_value(&mut args, url);
        push_arg(&mut args, "-ss");
        push_seconds(&mut args, timestamp);
        push_arg(&mut args, "-vframes");
        push_arg(&mut args, "1");
        push_arg(&mut args, "-q:v");
        push_arg(&mut args, "2");
        push_arg(&mut args, "-f");
        push_arg(&mut args, "image2");
        push_arg(&mut args, "-y");
        push_value(&mut args, output_path);
        proof {
            assert(arg_views(args@) =~= spec_capture_args(url@, *p, timestamp, output_path@));
        }
    }
    CommandSpec {
        program: String::from_str("ffmpeg"),
        args,
        output_path: String::from_str(output_path),
    }
}

/// Builds the complete clip command for a classified URL. The vendor
/// camera override is applied before generic protocol dispatch; a
/// positive duration is the caller's validation duty, enforced here.
pub fn build_clip_command(
    p: &StreamProtocol,
    url: &str,
    start: u64,
    duration: u64,
    output_path: &str,
) -> (r: CommandSpec)
    requires
        duration > 0,
    ensures
        r.program@ == "ffmpeg"@,
        r.output_path@ == output_path@,
        arg_views(r.args@) == spec_clip_args(url@, *p, start, duration, output_path@),
{
    let vendor = crate::protocol::is_vendor_camera_url(url);
    let mut args: Vec<String>;
    if vendor {
        args = Vec::new();
        push_arg(&mut args, "-rtsp_transport");
        push_arg(&mut args, "tcp");
        push_arg(&mut args, "-timeout");
        push_arg(&mut args, "10000000");
        push_arg(&mut args, "-fflags");
        push_arg(&mut args, "nobuffer+genpts");
        push_arg(&mut args, "-flags");
        push_arg(&mut args, "low_delay");
        push_arg(&mut args, "-strict");
        push_arg(&mut args, "experimental");
        push_arg(&mut args, "-thread_queue_size");
        push_arg(&mut args, "512");
        push_arg(&mut args, "-ss");
        push_seconds(&mut args, start);
        push_arg(&mut args, "-i");
        push_value(&mut args, url);
        push_arg(&mut args, "-t");
        push_seconds(&mut args, duration);
        push_arg(&mut args, "-c");
        push_arg(&mut args, "copy");
        push_arg(&mut args, "-avoid_negative_ts");
        push_arg(&mut args, "make_zero");
        push_arg(&mut args, "-y");
        push_value(&mut args, output_path);
        proof {
            assert(arg_views(args@) =~= spec_vendor_clip_args(
                url@,
                start,
                duration,
                output_path@,
            ));
        }
    } else {
        args = protocol_args(p, false);
        push_arg(&mut args, "-ss");
        push_seconds(&mut args, start);
        push_arg(&mut args, "-i");
        push_value(&mut args, url);
        push_arg(&mut args, "-t");
        push_seconds(&mut args, duration);
        push_codec_args(&mut args, p);
        push_arg(&mut args, "-y");
        push_value(&mut args, output_path);
        proof {
            assert(arg_views(args@) =~= spec_clip_args(url@, *p, start, duration, output_path@));
        }
    }
    CommandSpec {
        program: String::from_str("ffmpeg"),
        args,
        output_path: String::from_str(output_path),
    }
}

} // verus!
