//! Classifying the camera-privacy query tool's output and choosing the
//! announcement for each outcome.
//!
//! The query tool prints a line whose trailing character encodes the privacy
//! shutter's state. Running the tool happens outside; this module interprets
//! its output — or its absence, which deliberately fails open to "not
//! blocked" so a missing tool keeps the indicator quiet.

use vstd::prelude::*;
use vstd::string::StrSliceExecFns;

use crate::text::{trim_str, trimmed};

verus! {

/// The camera privacy shutter as the query tool reports it.
#[derive(Clone, Copy, Debug, PartialEq, Eq, Structural)]
pub enum CameraState {
    Blocked,
    Live,
    Unknown,
}

/// Classification of the query tool's output: the trimmed text's last
/// character decides, and anything that ends in neither `'1'` nor `'0'` —
/// the empty output included — is unknown.
pub open spec fn camera_state_of(s: Seq<char>) -> CameraState {
    if trimmed(s).len() > 0 && trimmed(s).last() == '1' {
        CameraState::Blocked
    } else if trimmed(s).len() > 0 && trimmed(s).last() == '0' {
        CameraState::Live
    } else {
        CameraState::Unknown
    }
}

/// Map the query tool's output text to the state it reports.
pub fn classify_camera_output(s: &str) -> (r: CameraState)
    ensures
        r == camera_state_of(s@),
{
    let t = trim_str(s);
    let n = t.unicode_len();
    if n == 0 {
        return CameraState::Unknown;
    }
    let c = t.get_char(n - 1);
    if c == '1' {
        CameraState::Blocked
    } else if c == '0' {
        CameraState::Live
    } else {
        CameraState::Unknown
    }
}

/// Whether the observer shows the camera as blocked, given the query tool's
/// output or `None` where the tool could not be run. Fails open: without a
/// readable answer the camera counts as not blocked.
pub open spec fn camera_blocked_of(output: Option<Seq<char>>) -> bool {
    match output {
        Some(s) => camera_state_of(s) == CameraState::Blocked,
        None => false,
    }
}

/// The observer's camera reading. `None` stands for a query tool that could
/// not be run at all; any tool failure yields `false`, never an error.
pub fn is_camera_blocked(output: Option<&str>) -> (r: bool)
    ensures
        r == camera_blocked_of(
            match output {
                Some(s) => Some(s@),
                None => None,
            },
        ),
{
    match output {
        Some(s) => {
            let state = classify_camera_output(s);
            match state {
                CameraState::Blocked => true,
                _ => false,
            }
        },
        None => false,
    }
}

/// The icon announcing a camera state.
pub open spec fn camera_icon(state: CameraState) -> Seq<char> {
    match state {
        CameraState::Blocked => "camera-disabled-symbolic"@,
        CameraState::Live => "camera-web-symbolic"@,
        CameraState::Unknown => "camera-web-symbolic"@,
    }
}

/// The title announcing a camera state.
pub open spec fn camera_title(state: CameraState) -> Seq<char> {
    match state {
        CameraState::Blocked => "Camera Privacy"@,
        CameraState::Live => "Camera Privacy"@,
        CameraState::Unknown => "Camera Switch"@,
    }
}

/// The message body announcing a camera state.
pub open spec fn camera_message(state: CameraState) -> Seq<char> {
    match state {
        CameraState::Blocked => "Camera is BLOCKED"@,
        CameraState::Live => "Camera is LIVE"@,
        CameraState::Unknown => "Privacy toggle detected (Status Unknown)"@,
    }
}

/// The icon, title and message that announce a camera state.
pub fn camera_notification(state: CameraState) -> (r: (&'static str, &'static str, &'static str))
    ensures
        r.0@ == camera_icon(state),
        r.1@ == camera_title(state),
        r.2@ == camera_message(state),
{
    match state {
        CameraState::Blocked => ("camera-disabled-symbolic", "Camera Privacy", "Camera is BLOCKED"),
        CameraState::Live => ("camera-web-symbolic", "Camera Privacy", "Camera is LIVE"),
        CameraState::Unknown => (
            "camera-web-symbolic",
            "Camera Switch",
            "Privacy toggle detected (Status Unknown)",
        ),
    }
}

/// The announcement the privileged helper makes after a physical camera
/// key event: nothing when the query tool could not be run, otherwise the
/// triple for the classified output.
pub fn camera_announcement(output: Option<&str>) -> (r: Option<
    (&'static str, &'static str, &'static str),
>)
    ensures
        match output {
            None => r is None,
            Some(s) => match r {
                Some(t) => t.0@ == camera_icon(camera_state_of(s@)) && t.1@ == camera_title(
                    camera_state_of(s@),
                ) && t.2@ == camera_message(camera_state_of(s@)),
                None => false,
            },
        },
{
    match output {
        Some(s) => Some(camera_notification(classify_camera_output(s))),
        None => None,
    }
}

/// No two camera states announce themselves alike: each differs from the
/// others in its icon or in its title.
pub proof fn lemma_camera_notices_distinct(a: CameraState, b: CameraState)
    requires
        a != b,
    ensures
        camera_icon(a) != camera_icon(b) || camera_title(a) != camera_title(b),
{
    reveal_strlit("camera-disabled-symbolic");
    reveal_strlit("camera-web-symbolic");
    reveal_strlit("Camera Privacy");
    reveal_strlit("Camera Switch");
    assert("camera-disabled-symbolic"@.len() != "camera-web-symbolic"@.len());
    assert("Camera Privacy"@.len() != "Camera Switch"@.len());
}

} // verus!
