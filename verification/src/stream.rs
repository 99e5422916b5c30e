//! Per-protocol stream handlers: each carries its transport settings and
//! builds snapshot and clip commands from them. `create_handler` picks
//! the handler for a URL by the same scheme rules the classifier uses.
use vstd::prelude::*;

use crate::command::{arg_views, CommandSpec};
use crate::strutil::{
    has_substring, spec_decimal, str_contains, str_ends_with, str_starts_with, u64_to_string,
};

verus! {

/// The RTSP transport layer.
#[derive(Debug, Clone, Copy, PartialEq, Eq, Structural)]
pub enum RtspTransport {
    TCP,
    UDP,
}

/// The transport's name as handed to the media tool.
pub open spec fn spec_transport_name(t: RtspTransport) -> Seq<char> {
    match t {
        RtspTransport::TCP => "tcp"@,
        RtspTransport::UDP => "udp"@,
    }
}

impl RtspTransport {
    /// The transport's name as handed to the media tool.
    pub fn as_str(&self) -> (r: &'static str)
        ensures
            r@ == spec_transport_name(*self),
    {
        match self {
            RtspTransport::TCP => "tcp",
            RtspTransport::UDP => "udp",
        }
    }
}

/// Handler for RTSP sources; the timeout is in microseconds.
#[derive(Debug, Clone, Copy, PartialEq, Eq, Structural)]
pub struct RTSPHandler {
    pub transport: RtspTransport,
    pub timeout_us: u64,
    pub reconnect: bool,
}

/// Handler for RTMP sources.
#[derive(Debug, Clone, Copy, PartialEq, Eq, Structural)]
pub struct RTMPHandler {
    pub chunk_size: usize,
    pub live: bool,
}

/// Handler for HLS playlists.
#[derive(Debug, Clone, Copy, PartialEq, Eq, Structural)]
pub struct HLSHandler {
    pub segment_duration: u32,
    pub playlist_size: u32,
}

/// Handler for plain HTTP(S) sources; the timeout is in microseconds.
#[derive(Debug, Clone, Copy, PartialEq, Eq, Structural)]
pub struct HTTPHandler {
    pub timeout_us: u64,
}

/// The snapshot command of an RTSP handler.
pub open spec fn spec_rtsp_snapshot_args(
    h: RTSPHandler,
    url: Seq<char>,
    timestamp: u64,
    out: Seq<char>,
) -> Seq<Seq<char>> {
    seq![
        "-rtsp_transport"@,
        spec_transport_name(h.transport),
        "-timeout"@,
        spec_decimal(h.timeout_us as nat),
        "-analyzeduration"@,
        "5000000"@,
        "-probesize"@,
        "5000000"@,
        "-i"@,
        url,
        "-ss"@,
        spec_decimal(timestamp as nat),
        "-vframes"@,
        "1"@,
        "-f"@,
        "image2"@,
        "-y"@,
        out,
    ]
}

/// The clip command of an RTSP handler: video copied, audio re-encoded.
pub open spec fn spec_rtsp_clip_args(
    h: RTSPHandler,
    url: Seq<char>,
    start: u64,
    duration: u64,
    out: Seq<char>,
) -> Seq<Seq<char>> {
    seq![
        "-rtsp_transport"@,
        spec_transport_name(h.transport),
        "-timeout"@,
        spec_decimal(h.timeout_us as nat),
        "-analyzeduration"@,
        "5000000"@,
        "-probesize"@,
        "5000000"@,
        "-ss"@,
        spec_decimal(start as nat),
        "-i"@,
        url,
        "-t"@,
        spec_decimal(duration as nat),
        "-c:v"@,
        "copy"@,
        "-c:a"@,
        "aac"@,
        "-b:a"@,
        "128k"@,
        "-y"@,
        out,
    ]
}

/// The extra arguments of a live RTMP source.
pub open spec fn spec_rtmp_live_args() -> Seq<Seq<char>> {
    seq![
        "-live_start_index"@,
        "0"@,
        "-analyzeduration"@,
        "1000000"@,
        "-probesize"@,
        "1000000"@,
    ]
}

/// The snapshot command of an RTMP handler; live sources append their
/// probe bounds before the output path.
pub open spec fn spec_rtmp_snapshot_args(
    h: RTMPHandler,
    url: Seq<char>,
    timestamp: u64,
    out: Seq<char>,
) -> Seq<Seq<char>> {
    let base = seq![
        "-i"@,
        url,
        "-ss"@,
        spec_decimal(timestamp as nat),
        "-vframes"@,
        "1"@,
        "-f"@,
        "image2"@,
        "-y"@,
    ];
    if h.live {
        base + spec_rtmp_live_args() + seq![out]
    } else {
        base + seq![out]
    }
}

/// The clip command of an RTMP handler: re-encoded at a bounded rate.
pub open spec fn spec_rtmp_clip_args(
    h: RTMPHandler,
    url: Seq<char>,
    start: u64,
    duration: u64,
    out: Seq<char>,
) -> Seq<Seq<char>> {
    let tail = seq![
        "-i"@,
        url,
        "-ss"@,
        spec_decimal(start as nat),
        "-t"@,
        spec_decimal(duration as nat),
        "-c:v"@,
        "libx264"@,
        "-preset"@,
        "veryfast"@,
        "-maxrate"@,
        "3000k"@,
        "-bufsize"@,
        "6000k"@,
        "-y"@,
        out,
    ];
    if h.live {
        spec_rtmp_live_args() + tail
    } else {
        tail
    }
}

/// The snapshot command of an HLS handler.
pub open spec fn spec_hls_snapshot_args(
    url: Seq<char>,
    timestamp: u64,
    out: Seq<char>,
) -> Seq<Seq<char>> {
    seq![
        "-i"@,
        url,
        "-ss"@,
        spec_decimal(timestamp as nat),
        "-vframes"@,
        "1"@,
        "-f"@,
        "image2"@,
        "-y"@,
        "-timeout"@,
        "10000000"@,
        out,
    ]
}

/// The clip command of an HLS handler: re-encoded into rolling segments.
pub open spec fn spec_hls_clip_args(
    h: HLSHandler,
    url: Seq<char>,
    start: u64,
    duration: u64,
    out: Seq<char>,
) -> Seq<Seq<char>> {
    seq![
        "-i"@,
        url,
        "-ss"@,
        spec_decimal(start as nat),
        "-t"@,
        spec_decimal(duration as nat),
        "-c:v"@,
        "libx264"@,
        "-hls_time"@,
        spec_decimal(h.segment_duration as nat),
        "-hls_list_size"@,
        spec_decimal(h.playlist_size as nat),
        "-hls_flags"@,
        "delete_segments"@,
        "-f"@,
        "hls"@,
        "-y"@,
        out,
    ]
}

/// The snapshot command of an HTTP handler.
pub open spec fn spec_http_snapshot_args(
    h: HTTPHandler,
    url: Seq<char>,
    timestamp: u64,
    out: Seq<char>,
) -> Seq<Seq<char>> {
    seq![
        "-i"@,
        url,
        "-ss"@,
        spec_decimal(timestamp as nat),
        "-vframes"@,
        "1"@,
        "-f"@,
        "image2"@,
        "-y"@,
        "-timeout"@,
        spec_decimal(h.timeout_us as nat),
        out,
    ]
}

/// The clip command of an HTTP handler: video stream copied.
pub open spec fn spec_http_clip_args(
    h: HTTPHandler,
    url: Seq<char>,
    start: u64,
    duration: u64,
    out: Seq<char>,
) -> Seq<Seq<char>> {
    seq![
        "-i"@,
        url,
        "-ss"@,
        spec_decimal(start as nat),
        "-t"@,
        spec_decimal(duration as nat),
        "-c:v"@,
        "copy"@,
        "-y"@,
        "-timeout"@,
        spec_decimal(h.timeout_us as nat),
        out,
    ]
}

/// Appends one literal argument.
fn push_arg(args: &mut Vec<String>, s: &str)
    ensures
        arg_views(final(args)@) == arg_views(old(args)@).push(s@),
{
    args.push(String::from_str(s));
    proof {
        assert(arg_views(args@) =~= arg_views(old(args)@).push(s@));
    }
}

/// Appends one number rendered in decimal.
fn push_number(args: &mut Vec<String>, n: u64)
    ensures
        arg_views(final(args)@) == arg_views(old(args)@).push(spec_decimal(n as nat)),
{
    args.push(u64_to_string(n));
    proof {
        assert(arg_views(args@) =~= arg_views(old(args)@).push(spec_decimal(n as nat)));
    }
}

impl RTSPHandler {
    /// An RTSP handler over the given transport, timeout (microseconds)
    /// and reconnect policy.
    pub fn new(transport: RtspTransport, timeout_us: u64, reconnect: bool) -> (r: RTSPHandler)
        ensures
            r == (RTSPHandler { transport, timeout_us, reconnect }),
    {
        RTSPHandler { transport, timeout_us, reconnect }
    }

    /// Builds the single-frame capture command.
    pub fn build_snapshot_command(&self, url: &str, timestamp: u64, output: &str) -> (r:
        CommandSpec)
        ensures
            r.program@ == "ffmpeg"@,
            r.output_path@ == output@,
            arg_views(r.args@) == spec_rtsp_snapshot_args(*self, url@, timestamp, output@),
    {
        let mut args: Vec<String> = Vec::new();
        push_arg(&mut args, "-rtsp_transport");
        push_arg(&mut args, self.transport.as_str());
        push_arg(&mut args, "-timeout");
        push_number(&mut args, self.timeout_us);
        push_arg(&mut args, "-analyzeduration");
        push_arg(&mut args, "5000000");
        push_arg(&mut args, "-probesize");
        push_arg(&mut args, "5000000");
        push_arg(&mut args, "-i");
        push_arg(&mut args, url);
        push_arg(&mut args, "-ss");
        push_number(&mut args, timestamp);
        push_arg(&mut args, "-vframes");
        push_arg(&mut args, "1");
        push_arg(&mut args, "-f");
        push_arg(&mut args, "image2");
        push_arg(&mut args, "-y");
        push_arg(&mut args, output);
        proof {
            assert(arg_views(args@) =~= spec_rtsp_snapshot_args(*self, url@, timestamp, output@));
        }
        CommandSpec {
            program: String::from_str("ffmpeg"),
            args,
            output_path: String::from_str(output),
        }
    }

    /// Builds the clip command: video copied, audio re-encoded.
    pub fn build_clip_command(&self, url: &str, start: u64, duration: u64, output: &str) -> (r:
        CommandSpec)
        ensures
            r.program@ == "ffmpeg"@,
            r.output_path@ == output@,
            arg_views(r.args@) == spec_rtsp_clip_args(*self, url@, start, duration, output@),
    {
        let mut args: Vec<String> = Vec::new();
        push_arg(&mut args, "-rtsp_transport");
        push_arg(&mut args, self.transport.as_str());
        push_arg(&mut args, "-timeout");
        push_number(&mut args, self.timeout_us);
        push_arg(&mut args, "-analyzeduration");
        push_arg(&mut args, "5000000");
        push_arg(&mut args, "-probesize");
        push_arg(&mut args, "5000000");
        push_arg(&mut args, "-ss");
        push_number(&mut args, start);
        push_arg(&mut args, "-i");
        push_arg(&mut args, url);
        push_arg(&mut args, "-t");
        push_number(&mut args, duration);
        push_arg(&mut args, "-c:v");
        push_arg(&mut args, "copy");
        push_arg(&mut args, "-c:a");
        push_arg(&mut args, "aac");
        push_arg(&mut args, "-b:a");
        push_arg(&mut args, "128k");
        push_arg(&mut args, "-y");
        push_arg(&mut args, output);
        proof {
            assert(arg_views(args@) =~= spec_rtsp_clip_args(*self, url@, start, duration, output@));
        }
        CommandSpec {
            program: String::from_str("ffmpeg"),
            args,
            output_path: String::from_str(output),
        }
    }

    /// Whether the URL carries the RTSP scheme.
    pub fn validate_url(&self, url: &str) -> (r: bool)
        ensures
            r == "rtsp://"@.is_prefix_of(url@),
    {
        str_starts_with(url, "rtsp://")
    }
}

impl RTMPHandler {
    /// An RTMP handler with the given chunk size and live flag.
    pub fn new(chunk_size: usize, live: bool) -> (r: RTMPHandler)
        ensures
            r == (RTMPHandler { chunk_size, live }),
    {
        RTMPHandler { chunk_size, live }
    }

    /// Builds the single-frame capture command; live sources append
    /// their probe bounds before the output path.
    pub fn build_snapshot_command(&self, url: &str, timestamp: u64, output: &str) -> (r:
        CommandSpec)
        ensures
            r.program@ == "ffmpeg"@,
            r.output_path@ == output@,
            arg_views(r.args@) == spec_rtmp_snapshot_args(*self, url@, timestamp, output@),
    {
        let mut args: Vec<String> = Vec::new();
        push_arg(&mut args, "-i");
        push_arg(&mut args, url);
        push_arg(&mut args, "-ss");
        push_number(&mut args, timestamp);
        push_arg(&mut args, "-vframes");
        push_arg(&mut args, "1");
        push_arg(&mut args, "-f");
        push_arg(&mut args, "image2");
        push_arg(&mut args, "-y");
        if self.live {
            push_arg(&mut args, "-live_start_index");
            push_arg(&mut args, "0");
            push_arg(&mut args, "-analyzeduration");
            push_arg(&mut args, "1000000");
            push_arg(&mut args, "-probesize");
            push_arg(&mut args, "1000000");
        }
        push_arg(&mut args, output);
        proof {
            assert(arg_views(args@) =~= spec_rtmp_snapshot_args(*self, url@, timestamp, output@));
        }
        CommandSpec {
            program: String::from_str("ffmpeg"),
            args,
            output_path: String::from_str(output),
        }
    }

    /// Builds the clip command: re-encoded at a bounded rate; live
    /// sources get their probe bounds first.
    pub fn build_clip_command(&self, url: &str, start: u64, duration: u64, output: &str) -> (r:
        CommandSpec)
        ensures
            r.program@ == "ffmpeg"@,
            r.output_path@ == output@,
            arg_views(r.args@) == spec_rtmp_clip_args(*self, url@, start, duration, output@),
    {
        let mut args: Vec<String> = Vec::new();
        if self.live {
            push_arg(&mut args, "-live_start_index");
            push_arg(&mut args, "0");
            push_arg(&mut args, "-analyzeduration");
            push_arg(&mut args, "1000000");
            push_arg(&mut args, "-probesize");
            push_arg(&mut args, "1000000");
        }
        push_arg(&mut args, "-i");
        push_arg(&mut args, url);
        push_arg(&mut args, "-ss");
        push_number(&mut args, start);
        push_arg(&mut args, "-t");
        push_number(&mut args, duration);
        push_arg(&mut args, "-c:v");
        push_arg(&mut args, "libx264");
        push_arg(&mut args, "-preset");
        push_arg(&mut args, "veryfast");
        push_arg(&mut args, "-maxrate");
        push_arg(&mut args, "3000k");
        push_arg(&mut args, "-bufsize");
        push_arg(&mut args, "6000k");
        push_arg(&mut args, "-y");
        push_arg(&mut args, output);
        proof {
            assert(arg_views(args@) =~= spec_rtmp_clip_args(*self, url@, start, duration, output@));
        }
        CommandSpec {
            program: String::from_str("ffmpeg"),
            args,
            output_path: String::from_str(output),
        }
    }

    /// Whether the URL carries the RTMP scheme.
    pub fn validate_url(&self, url: &str) -> (r: bool)
        ensures
            r == "rtmp://"@.is_prefix_of(url@),
    {
        str_starts_with(url, "rtmp://")
    }
}

impl HLSHandler {
    /// An HLS handler with the given segment length (seconds) and
    /// playlist size.
    pub fn new(segment_duration: u32, playlist_size: u32) -> (r: HLSHandler)
        ensures
            r == (HLSHandler { segment_duration, playlist_size }),
    {
        HLSHandler { segment_duration, playlist_size }
    }

    /// Builds the single-frame capture command.
    pub fn build_snapshot_command(&self, url: &str, timestamp: u64, output: &str) -> (r:
        CommandSpec)
        ensures
            r.program@ == "ffmpeg"@,
            r.output_path@ == output@,
            arg_views(r.args@) == spec_hls_snapshot_args(url@, timestamp, output@),
    {
        let mut args: Vec<String> = Vec::new();
        push_arg(&mut args, "-i");
        push_arg(&mut args, url);
        push_arg(&mut args, "-ss");
        push_number(&mut args, timestamp);
        push_arg(&mut args, "-vframes");
        push_arg(&mut args, "1");
        push_arg(&mut args, "-f");
        push_arg(&mut args, "image2");
        push_arg(&mut args, "-y");
        push_arg(&mut args, "-timeout");
        push_arg(&mut args, "10000000");
        push_arg(&mut args, output);
        proof {
            assert(arg_views(args@) =~= spec_hls_snapshot_args(url@, timestamp, output@));
        }
        CommandSpec {
            program: String::from_str("ffmpeg"),
            args,
            output_path: String::from_str(output),
        }
    }

    /// Builds the clip command: re-encoded into rolling segments.
    pub fn build_clip_command(&self, url: &str, start: u64, duration: u64, output: &str) -> (r:
        CommandSpec)
        ensures
            r.program@ == "ffmpeg"@,
            r.output_path@ == output@,
            arg_views(r.args@) == spec_hls_clip_args(*self, url@, start, duration, output@),
    {
        let mut args: Vec<String> = Vec::new();
        push_arg(&mut args, "-i");
        push_arg(&mut args, url);
        push_arg(&mut args, "-ss");
        push_number(&mut args, start);
        push_arg(&mut args, "-t");
        push_number(&mut args, duration);
        push_arg(&mut args, "-c:v");
        push_arg(&mut args, "libx264");
        push_arg(&mut args, "-hls_time");
        push_number(&mut args, self.segment_duration as u64);
        push_arg(&mut args, "-hls_list_size");
        push_number(&mut args, self.playlist_size as u64);
        push_arg(&mut args, "-hls_flags");
        push_arg(&mut args, "delete_segments");
        push_arg(&mut args, "-f");
        push_arg(&mut args, "hls");
        push_arg(&mut args, "-y");
        push_arg(&mut args, output);
        proof {
            assert(arg_views(args@) =~= spec_hls_clip_args(*self, url@, start, duration, output@));
        }
        CommandSpec {
            program: String::from_str("ffmpeg"),
            args,
            output_path: String::from_str(output),
        }
    }

    /// Whether the URL names an HLS playlist.
    pub fn validate_url(&self, url: &str) -> (r: bool)
        ensures
            r == (".m3u8"@.is_suffix_of(url@) || ("http"@.is_prefix_of(url@) && has_substring(
                url@,
                "m3u8"@,
            ))),
    {
        if str_ends_with(url, ".m3u8") {
            true
        } else {
            str_starts_with(url, "http") && str_contains(url, "m3u8")
        }
    }
}

impl HTTPHandler {
    /// An HTTP handler with the given timeout (microseconds).
    pub fn new(timeout_us: u64) -> (r: HTTPHandler)
        ensures
            r == (HTTPHandler { timeout_us }),
    {
        HTTPHandler { timeout_us }
    }

    /// Builds the single-frame capture command.
    pub fn build_snapshot_command(&self, url: &str, timestamp: u64, output: &str) -> (r:
        CommandSpec)
        ensures
            r.program@ == "ffmpeg"@,
            r.output_path@ == output@,
            arg_views(r.args@) == spec_http_snapshot_args(*self, url@, timestamp, output@),
    {
        let mut args: Vec<String> = Vec::new();
        push_arg(&mut args, "-i");
        push_arg(&mut args, url);
        push_arg(&mut args, "-ss");
        push_number(&mut args, timestamp);
        push_arg(&mut args, "-vframes");
        push_arg(&mut args, "1");
        push_arg(&mut args, "-f");
        push_arg(&mut args, "image2");
        push_arg(&mut args, "-y");
        push_arg(&mut args, "-timeout");
        push_number(&mut args, self.timeout_us);
        push_arg(&mut args, output);
        proof {
            assert(arg_views(args@) =~= spec_http_snapshot_args(*self, url@, timestamp, output@));
        }
        CommandSpec {
            program: String::from_str("ffmpeg"),
            args,
            output_path: String::from_str(output),
        }
    }

    /// Builds the clip command: video stream copied.
    pub fn build_clip_command(&self, url: &str, start: u64, duration: u64, output: &str) -> (r:
        CommandSpec)
        ensures
            r.program@ == "ffmpeg"@,
            r.output_path@ == output@,
            arg_views(r.args@) == spec_http_clip_args(*self, url@, start, duration, output@),
    {
        let mut args: Vec<String> = Vec::new();
        push_arg(&mut args, "-i");
        push_arg(&mut args, url);
        push_arg(&mut args, "-ss");
        push_number(&mut args, start);
        push_arg(&mut args, "-t");
        push_number(&mut args, duration);
        push_arg(&mut args, "-c:v");
        push_arg(&mut args, "copy");
        push_arg(&mut args, "-y");
        push_arg(&mut args, "-timeout");
        push_number(&mut args, self.timeout_us);
        push_arg(&mut args, output);
        proof {
            assert(arg_views(args@) =~= spec_http_clip_args(*self, url@, start, duration, output@));
        }
        CommandSpec {
            program: String::from_str("ffmpeg"),
            args,
            output_path: String::from_str(output),
        }
    }

    /// Whether the URL carries an HTTP(S) scheme.
    pub fn validate_url(&self, url: &str) -> (r: bool)
        ensures
            r == ("http://"@.is_prefix_of(url@) || "https://"@.is_prefix_of(url@)),
    {
        str_starts_with(url, "http://") || str_starts_with(url, "https://")
    }
}

/// The handler chosen for a URL.
#[derive(Debug, Clone, Copy, PartialEq, Eq, Structural)]
pub enum HandlerKind {
    Rtsp(RTSPHandler),
    Rtmp(RTMPHandler),
    Hls(HLSHandler),
    Http(HTTPHandler),
}

/// Which handler a URL gets: RTSP over TCP with a ten-second timeout for
/// `rtsp://`, a live RTMP handler for `rtmp://`, a rolling-playlist HLS
/// handler for playlist URLs, and a thirty-second HTTP handler for
/// everything else.
pub open spec fn spec_create_handler(url: Seq<char>) -> HandlerKind {
    if "rtsp://"@.is_prefix_of(url) {
        HandlerKind::Rtsp(
            RTSPHandler { transport: RtspTransport::TCP, timeout_us: 10000000, reconnect: true },
        )
    } else if "rtmp://"@.is_prefix_of(url) {
        HandlerKind::Rtmp(RTMPHandler { chunk_size: 4096, live: true })
    } else if ".m3u8"@.is_suffix_of(url) || ("http"@.is_prefix_of(url) && has_substring(
        url,
        "m3u8"@,
    )) {
        HandlerKind::Hls(HLSHandler { segment_duration: 6, playlist_size: 10 })
    } else {
        HandlerKind::Http(HTTPHandler { timeout_us: 30000000 })
    }
}

/// Picks the handler for a URL.
pub fn create_handler(url: &str) -> (r: HandlerKind)
    ensures
        r == spec_create_handler(url@),
{
    if str_starts_with(url, "rtsp://") {
        HandlerKind::Rtsp(RTSPHandler::new(RtspTransport::TCP, 10000000, true))
    } else if str_starts_with(url, "rtmp://") {
        HandlerKind::Rtmp(RTMPHandler::new(4096, true))
    } else if str_ends_with(url, ".m3u8") || (str_starts_with(url, "http") && str_contains(
        url,
        "m3u8",
    )) {
        HandlerKind::Hls(HLSHandler::new(6, 10))
    } else {
        HandlerKind::Http(HTTPHandler::new(30000000))
    }
}

} // verus!
