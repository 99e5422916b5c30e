use video_snapshot::protocol::StreamProtocol;
use video_snapshot::service::VideoSnapshotService;

fn strings(args: &[&str]) -> Vec<String> {
    args.iter().map(|s| s.to_string()).collect()
}

#[test]
fn rtsp_capture_command_is_exact() {
    let spec = VideoSnapshotService::plan_capture("rtsp://camera.local/stream1", 7, "/tmp/out.png");
    assert_eq!(spec.program, "ffmpeg");
    assert_eq!(spec.output_path, "/tmp/out.png");
    let expected = strings(&[
        "-rtsp_transport",
        "tcp",
        "-timeout",
        "10000000",
        "-reconnect",
        "1",
        "-reconnect_streamed",
        "1",
        "-reconnect_delay_max",
        "5",
        "-analyzeduration",
        "5000000",
        "-probesize",
        "5000000",
        "-i",
        "rtsp://camera.local/stream1",
        "-ss",
        "7",
        "-vframes",
        "1",
        "-q:v",
        "2",
        "-f",
        "image2",
        "-y",
        "/tmp/out.png",
    ]);
    assert_eq!(spec.args, expected);
}

#[test]
fn vendor_camera_capture_uses_minimal_args() {
    let spec = VideoSnapshotService::plan_capture("rtsp://cam/realmonitor?channel=1", 0, "/tmp/f.png");
    let expected = strings(&[
        "-rtsp_transport",
        "tcp",
        "-timeout",
        "10000000",
        "-fflags",
        "nobuffer",
        "-flags",
        "low_delay",
        "-strict",
        "experimental",
        "-thread_queue_size",
        "512",
        "-i",
        "rtsp://cam/realmonitor?channel=1",
        "-vframes",
        "1",
        "-q:v",
        "2",
        "-f",
        "image2",
        "-y",
        "/tmp/f.png",
    ]);
    assert_eq!(spec.args, expected);
    // The camera override must force TCP and omit the generic
    // long-probe arguments used for other RTSP sources.
    assert!(spec.args.contains(&"-rtsp_transport".to_string()));
    assert!(spec.args.contains(&"tcp".to_string()));
    assert!(!spec.args.contains(&"-analyzeduration".to_string()));
    assert!(!spec.args.contains(&"-probesize".to_string()));
}

#[test]
fn http_capture_command_is_exact() {
    let spec = VideoSnapshotService::plan_capture("https://example.com/video.mp4", 30, "/tmp/o.png");
    let expected = strings(&[
        "-user_agent",
        "Mozilla/5.0 (compatible; VideoServer/1.0)",
        "-timeout",
        "10000000",
        "-i",
        "https://example.com/video.mp4",
        "-ss",
        "30",
        "-vframes",
        "1",
        "-q:v",
        "2",
        "-f",
        "image2",
        "-y",
        "/tmp/o.png",
    ]);
    assert_eq!(spec.args, expected);
}

#[test]
fn protocol_args_per_protocol() {
    let rtmp = VideoSnapshotService::get_protocol_args(&StreamProtocol::RTMP, "rtmp://edge/live");
    assert_eq!(
        rtmp,
        strings(&[
            "-reconnect",
            "1",
            "-reconnect_streamed",
            "1",
            "-timeout",
            "10000000",
            "-analyzeduration",
            "2000000",
            "-probesize",
            "2000000",
        ])
    );
    let hls = VideoSnapshotService::get_protocol_args(&StreamProtocol::HLS, "https://cdn/a.m3u8");
    assert_eq!(
        hls,
        strings(&[
            "-user_agent",
            "Mozilla/5.0 (compatible; VideoServer/1.0)",
            "-timeout",
            "10000000",
            "-analyzeduration",
            "3000000",
            "-probesize",
            "3000000",
        ])
    );
    let file = VideoSnapshotService::get_protocol_args(&StreamProtocol::File, "/data/a.mp4");
    assert!(file.is_empty());
    let unknown = VideoSnapshotService::get_protocol_args(&StreamProtocol::Unknown, "odd://x");
    assert_eq!(
        unknown,
        strings(&[
            "-timeout",
            "10000000",
            "-analyzeduration",
            "3000000",
            "-probesize",
            "3000000",
        ])
    );
}

#[test]
fn vendor_rtsp_protocol_args_shorten_probing() {
    let args = VideoSnapshotService::get_protocol_args(
        &StreamProtocol::RTSP,
        "rtsp://cam/realmonitor",
    );
    assert_eq!(
        args,
        strings(&[
            "-rtsp_transport",
            "tcp",
            "-fflags",
            "nobuffer",
            "-flags",
            "low_delay",
            "-strict",
            "experimental",
            "-analyzeduration",
            "1000000",
            "-probesize",
            "1000000",
            "-timeout",
            "10000000",
            "-thread_queue_size",
            "512",
        ])
    );
}

#[test]
fn clip_codec_policy_follows_protocol() {
    let plan = VideoSnapshotService::plan_clip("rtsp://camera.local/s", 5, 10, "clips");
    let tail = strings(&[
        "-ss", "5", "-i", "rtsp://camera.local/s", "-t", "10", "-c:v", "copy", "-c:a", "aac",
        "-b:a", "128k", "-y", &plan.output_path,
    ]);
    assert!(plan.command.args.ends_with(&tail));

    let plan = VideoSnapshotService::plan_clip("https://example.com/v.mp4", 0, 3, "clips");
    let tail = strings(&[
        "-ss", "0", "-i", "https://example.com/v.mp4", "-t", "3", "-c:v", "copy", "-y",
        &plan.output_path,
    ]);
    assert!(plan.command.args.ends_with(&tail));

    let plan = VideoSnapshotService::plan_clip("https://cdn/live/index.m3u8", 0, 3, "clips");
    let tail = strings(&[
        "-ss", "0", "-i", "https://cdn/live/index.m3u8", "-t", "3", "-c:v", "libx264", "-preset",
        "fast", "-crf", "23", "-c:a", "aac", "-b:a", "128k", "-y", &plan.output_path,
    ]);
    assert!(plan.command.args.ends_with(&tail));
}

#[test]
fn vendor_camera_clip_is_direct_stream_copy() {
    let plan = VideoSnapshotService::plan_clip("rtsp://cam/realmonitor", 0, 8, "clips");
    let expected = strings(&[
        "-rtsp_transport",
        "tcp",
        "-timeout",
        "10000000",
        "-fflags",
        "nobuffer+genpts",
        "-flags",
        "low_delay",
        "-strict",
        "experimental",
        "-thread_queue_size",
        "512",
        "-ss",
        "0",
        "-i",
        "rtsp://cam/realmonitor",
        "-t",
        "8",
        "-c",
        "copy",
        "-avoid_negative_ts",
        "make_zero",
        "-y",
        &plan.output_path,
    ]);
    assert_eq!(plan.command.args, expected);
}
