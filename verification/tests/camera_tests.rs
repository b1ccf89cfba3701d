//! Camera classification and its announcements.

use lenovo_assist::camera::{
    camera_announcement, camera_notification, classify_camera_output, is_camera_blocked,
    CameraState,
};

#[test]
fn trailing_one_is_blocked() {
    assert_eq!(classify_camera_output("privacy: 1"), CameraState::Blocked);
    assert_eq!(classify_camera_output("1\n"), CameraState::Blocked);
}

#[test]
fn trailing_zero_is_live() {
    assert_eq!(classify_camera_output("privacy: 0"), CameraState::Live);
    assert_eq!(classify_camera_output("0"), CameraState::Live);
}

#[test]
fn anything_else_is_unknown() {
    assert_eq!(classify_camera_output(""), CameraState::Unknown);
    assert_eq!(classify_camera_output("   "), CameraState::Unknown);
    assert_eq!(classify_camera_output("value=2"), CameraState::Unknown);
    assert_eq!(classify_camera_output("privacy: error"), CameraState::Unknown);
}

#[test]
fn announcements_are_distinct() {
    // No two states share both icon and title.
    let blocked = camera_notification(CameraState::Blocked);
    let live = camera_notification(CameraState::Live);
    let unknown = camera_notification(CameraState::Unknown);
    assert!((blocked.0, blocked.1) != (live.0, live.1));
    assert!((blocked.0, blocked.1) != (unknown.0, unknown.1));
    assert!((live.0, live.1) != (unknown.0, unknown.1));
}

#[test]
fn announcement_texts() {
    let blocked = camera_notification(CameraState::Blocked);
    assert_eq!(blocked, ("camera-disabled-symbolic", "Camera Privacy", "Camera is BLOCKED"));
    let live = camera_notification(CameraState::Live);
    assert_eq!(live, ("camera-web-symbolic", "Camera Privacy", "Camera is LIVE"));
    let unknown = camera_notification(CameraState::Unknown);
    assert_eq!(
        unknown,
        ("camera-web-symbolic", "Camera Switch", "Privacy toggle detected (Status Unknown)")
    );
}

#[test]
fn fail_open_when_tool_is_unavailable() {
    // A missing query tool means "not blocked", never an error.
    assert!(!is_camera_blocked(None));
}

#[test]
fn observer_camera_reading() {
    assert!(is_camera_blocked(Some("privacy: 1")));
    assert!(!is_camera_blocked(Some("privacy: 0")));
    assert!(!is_camera_blocked(Some("nonsense")));
}

#[test]
fn helper_announces_nothing_without_the_tool() {
    assert!(camera_announcement(None).is_none());
}

#[test]
fn helper_announces_classified_output() {
    let t = camera_announcement(Some("privacy: 1")).unwrap();
    assert_eq!(t.2, "Camera is BLOCKED");
    let t = camera_announcement(Some("privacy: 0")).unwrap();
    assert_eq!(t.2, "Camera is LIVE");
    let t = camera_announcement(Some("")).unwrap();
    assert_eq!(t.2, "Privacy toggle detected (Status Unknown)");
}
