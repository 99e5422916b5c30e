use video_snapshot::config::{AppBuilder, AppConfig};
use video_snapshot::models::{ClipRequest, SnapshotRequest};

#[test]
fn default_config_values() {
    let c = AppConfig::new();
    assert_eq!(c.host, [0, 0, 0, 0]);
    assert_eq!(c.port, 3000);
    assert_eq!(c.clips_dir, "clips");
    assert_eq!(c.frontend_dir, "frontend/vue-project/dist");
}

#[test]
fn builder_style_setters_replace_one_field_each() {
    let c = AppConfig::new()
        .with_host([127, 0, 0, 1])
        .with_port(8080)
        .with_clips_dir("media/clips")
        .with_frontend_dir("web/dist");
    assert_eq!(c.host, [127, 0, 0, 1]);
    assert_eq!(c.port, 8080);
    assert_eq!(c.clips_dir, "media/clips");
    assert_eq!(c.frontend_dir, "web/dist");
}

#[test]
fn validate_accepts_the_default_and_names_each_broken_rule() {
    assert!(AppConfig::new().validate().is_ok());
    let bad_port = AppConfig::new().with_port(0);
    assert_eq!(
        bad_port.validate().unwrap_err(),
        "server port must not be zero"
    );
    let bad_clips = AppConfig::new().with_clips_dir("");
    assert_eq!(
        bad_clips.validate().unwrap_err(),
        "clips directory must not be empty"
    );
    let bad_frontend = AppConfig::new().with_frontend_dir("");
    assert_eq!(
        bad_frontend.validate().unwrap_err(),
        "frontend directory must not be empty"
    );
}

#[test]
fn builder_assembles_a_quiet_state() {
    let state = AppBuilder::new().build_app_state();
    assert_eq!(state.concurrent_requests.snapshot(), 0);
    let custom = AppBuilder::new()
        .with_config(AppConfig::new().with_port(4000))
        .build_app_state();
    assert_eq!(custom.concurrent_requests.snapshot(), 0);
}

#[test]
fn snapshot_request_defaults_to_the_start() {
    let r = SnapshotRequest {
        url: "rtsp://cam/s".to_string(),
        timestamp: None,
    };
    assert_eq!(r.effective_timestamp(), 0);
    let r = SnapshotRequest {
        url: "rtsp://cam/s".to_string(),
        timestamp: Some(42),
    };
    assert_eq!(r.effective_timestamp(), 42);
}

#[test]
fn clip_request_defaults_and_validation() {
    let r = ClipRequest {
        url: "rtsp://cam/s".to_string(),
        start: None,
        duration: 10,
        return_url: None,
    };
    assert_eq!(r.effective_start(), 0);
    assert!(r.wants_url());
    assert!(r.validate());

    let rejected = ClipRequest {
        url: "rtsp://cam/s".to_string(),
        start: Some(3),
        duration: 0,
        return_url: Some(false),
    };
    assert_eq!(rejected.effective_start(), 3);
    assert!(!rejected.wants_url());
    // A non-positive duration is rejected before any command is built.
    assert!(!rejected.validate());
}
