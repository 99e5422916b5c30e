use video_snapshot::stream::{
    create_handler, HLSHandler, HTTPHandler, HandlerKind, RTMPHandler, RTSPHandler, RtspTransport,
};

fn strings(args: &[&str]) -> Vec<String> {
    args.iter().map(|s| s.to_string()).collect()
}

#[test]
fn transport_names() {
    assert_eq!(RtspTransport::TCP.as_str(), "tcp");
    assert_eq!(RtspTransport::UDP.as_str(), "udp");
}

#[test]
fn rtsp_handler_snapshot_command() {
    let h = RTSPHandler::new(RtspTransport::TCP, 10000000, true);
    let cmd = h.build_snapshot_command("rtsp://cam/s", 4, "shot.png");
    assert_eq!(cmd.program, "ffmpeg");
    assert_eq!(
        cmd.args,
        strings(&[
            "-rtsp_transport",
            "tcp",
            "-timeout",
            "10000000",
            "-analyzeduration",
            "5000000",
            "-probesize",
            "5000000",
            "-i",
            "rtsp://cam/s",
            "-ss",
            "4",
            "-vframes",
            "1",
            "-f",
            "image2",
            "-y",
            "shot.png",
        ])
    );
}

#[test]
fn rtsp_handler_clip_copies_video_and_reencodes_audio() {
    let h = RTSPHandler::new(RtspTransport::UDP, 2000000, false);
    let cmd = h.build_clip_command("rtsp://cam/s", 1, 9, "clip.mp4");
    assert_eq!(
        cmd.args,
        strings(&[
            "-rtsp_transport",
            "udp",
            "-timeout",
            "2000000",
            "-analyzeduration",
            "5000000",
            "-probesize",
            "5000000",
            "-ss",
            "1",
            "-i",
            "rtsp://cam/s",
            "-t",
            "9",
            "-c:v",
            "copy",
            "-c:a",
            "aac",
            "-b:a",
            "128k",
            "-y",
            "clip.mp4",
        ])
    );
}

#[test]
fn rtmp_handler_live_args_flank_the_output() {
    let live = RTMPHandler::new(4096, true);
    let cmd = live.build_snapshot_command("rtmp://edge/app", 0, "s.png");
    assert_eq!(
        cmd.args,
        strings(&[
            "-i",
            "rtmp://edge/app",
            "-ss",
            "0",
            "-vframes",
            "1",
            "-f",
            "image2",
            "-y",
            "-live_start_index",
            "0",
            "-analyzeduration",
            "1000000",
            "-probesize",
            "1000000",
            "s.png",
        ])
    );
    let cmd = live.build_clip_command("rtmp://edge/app", 2, 6, "c.mp4");
    assert_eq!(
        cmd.args,
        strings(&[
            "-live_start_index",
            "0",
            "-analyzeduration",
            "1000000",
            "-probesize",
            "1000000",
            "-i",
            "rtmp://edge/app",
            "-ss",
            "2",
            "-t",
            "6",
            "-c:v",
            "libx264",
            "-preset",
            "veryfast",
            "-maxrate",
            "3000k",
            "-bufsize",
            "6000k",
            "-y",
            "c.mp4",
        ])
    );
}

#[test]
fn rtmp_handler_without_live_flag_drops_probe_bounds() {
    let vod = RTMPHandler::new(4096, false);
    let cmd = vod.build_snapshot_command("rtmp://edge/app", 0, "s.png");
    assert_eq!(
        cmd.args,
        strings(&[
            "-i",
            "rtmp://edge/app",
            "-ss",
            "0",
            "-vframes",
            "1",
            "-f",
            "image2",
            "-y",
            "s.png",
        ])
    );
}

#[test]
fn hls_handler_clip_builds_rolling_playlist() {
    let h = HLSHandler::new(6, 10);
    let cmd = h.build_clip_command("https://cdn/a.m3u8", 0, 12, "out.m3u8");
    assert_eq!(
        cmd.args,
        strings(&[
            "-i",
            "https://cdn/a.m3u8",
            "-ss",
            "0",
            "-t",
            "12",
            "-c:v",
            "libx264",
            "-hls_time",
            "6",
            "-hls_list_size",
            "10",
            "-hls_flags",
            "delete_segments",
            "-f",
            "hls",
            "-y",
            "out.m3u8",
        ])
    );
}

#[test]
fn http_handler_commands_carry_its_timeout() {
    let h = HTTPHandler::new(30000000);
    let cmd = h.build_snapshot_command("https://example.com/v.mp4", 15, "s.png");
    assert_eq!(
        cmd.args,
        strings(&[
            "-i",
            "https://example.com/v.mp4",
            "-ss",
            "15",
            "-vframes",
            "1",
            "-f",
            "image2",
            "-y",
            "-timeout",
            "30000000",
            "s.png",
        ])
    );
    let cmd = h.build_clip_command("https://example.com/v.mp4", 3, 5, "c.mp4");
    assert_eq!(
        cmd.args,
        strings(&[
            "-i",
            "https://example.com/v.mp4",
            "-ss",
            "3",
            "-t",
            "5",
            "-c:v",
            "copy",
            "-y",
            "-timeout",
            "30000000",
            "c.mp4",
        ])
    );
}

#[test]
fn handler_urls_validate_their_scheme() {
    let rtsp = RTSPHandler::new(RtspTransport::TCP, 1, true);
    assert!(rtsp.validate_url("rtsp://cam/s"));
    assert!(!rtsp.validate_url("http://cam/s"));
    let rtmp = RTMPHandler::new(1, false);
    assert!(rtmp.validate_url("rtmp://edge/a"));
    assert!(!rtmp.validate_url("rtsp://edge/a"));
    let hls = HLSHandler::new(6, 10);
    assert!(hls.validate_url("https://cdn/live/index.m3u8"));
    assert!(hls.validate_url("http://cdn/live?fmt=m3u8"));
    assert!(!hls.validate_url("https://cdn/live/video.mp4"));
    let http = HTTPHandler::new(1);
    assert!(http.validate_url("http://a/b"));
    assert!(http.validate_url("https://a/b"));
    assert!(!http.validate_url("ftp://a/b"));
}

#[test]
fn create_handler_dispatches_by_scheme() {
    match create_handler("rtsp://cam/s") {
        HandlerKind::Rtsp(h) => {
            assert_eq!(h.transport, RtspTransport::TCP);
            assert_eq!(h.timeout_us, 10000000);
            assert!(h.reconnect);
        }
        _ => panic!("expected the RTSP handler"),
    }
    match create_handler("rtmp://edge/app") {
        HandlerKind::Rtmp(h) => {
            assert_eq!(h.chunk_size, 4096);
            assert!(h.live);
        }
        _ => panic!("expected the RTMP handler"),
    }
    match create_handler("https://cdn/live/index.m3u8") {
        HandlerKind::Hls(h) => {
            assert_eq!(h.segment_duration, 6);
            assert_eq!(h.playlist_size, 10);
        }
        _ => panic!("expected the HLS handler"),
    }
    match create_handler("https://example.com/v.mp4") {
        HandlerKind::Http(h) => assert_eq!(h.timeout_us, 30000000),
        _ => panic!("expected the HTTP handler"),
    }
}
