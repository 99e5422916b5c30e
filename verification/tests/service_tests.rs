use video_snapshot::service::VideoSnapshotService;
use video_snapshot::strutil::{str_contains, str_ends_with, str_starts_with, u64_to_string};

#[test]
fn clip_plan_names_a_fresh_mp4_in_the_clip_directory() {
    let plan = VideoSnapshotService::plan_clip("rtsp://cam/s", 0, 5, "clips");
    assert_eq!(plan.filename.len(), 40);
    assert!(plan.filename.ends_with(".mp4"));
    assert_eq!(plan.output_path, format!("clips/{}", plan.filename));
    assert_eq!(plan.command.program, "ffmpeg");
    assert_eq!(plan.command.output_path, plan.output_path);
    assert!(plan
        .command
        .args
        .contains(&"rtsp://cam/s".to_string()));
}

#[test]
fn clip_plans_do_not_collide() {
    let a = VideoSnapshotService::plan_clip("rtsp://cam/s", 0, 5, "clips");
    let b = VideoSnapshotService::plan_clip("rtsp://cam/s", 0, 5, "clips");
    assert_ne!(a.filename, b.filename);
}

#[test]
fn clip_plan_respects_the_configured_directory() {
    let plan = VideoSnapshotService::plan_clip("https://example.com/v.mp4", 2, 4, "media/out");
    assert!(plan.output_path.starts_with("media/out/"));
    assert_eq!(
        plan.command.args.last().unwrap(),
        &plan.output_path
    );
}

#[test]
fn strutil_decimal_rendering_is_exact() {
    assert_eq!(u64_to_string(0), "0");
    assert_eq!(u64_to_string(7), "7");
    assert_eq!(u64_to_string(30), "30");
    assert_eq!(u64_to_string(10000000), "10000000");
    assert_eq!(u64_to_string(u64::MAX), "18446744073709551615");
}

#[test]
fn strutil_searches_match_std() {
    assert!(str_starts_with("rtsp://cam", "rtsp://"));
    assert!(!str_starts_with("rt", "rtsp://"));
    assert!(str_contains("http://cdn/live.m3u8?x=1", ".m3u8"));
    assert!(!str_contains("http://cdn/live.mp4", ".m3u8"));
    assert!(str_contains("abc", ""));
    assert!(str_ends_with("clip.mp4", ".mp4"));
    assert!(!str_ends_with("clip.mp4.part", ".mp4"));
}
