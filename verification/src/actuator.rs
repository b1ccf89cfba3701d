//! The privileged helper's command dispatch and its reporting decisions.
//!
//! One invocation carries one command — flip the battery-conservation file,
//! flip the fn-lock file, or announce a camera key event — plus an optional
//! quiet flag. The helper performs exactly one toggle per invocation; under
//! the quiet flag it stays silent, because the observer that spawned it will
//! detect and mirror the change on its next poll.

use vstd::prelude::*;
use vstd::string::StringExecFns;

use crate::text::str_eq;

verus! {

/// What one invocation of the privileged helper was asked to do.
#[derive(Clone, Copy, Debug, PartialEq, Eq, Structural)]
pub enum ActuatorCommand {
    /// Toggle the battery conservation-mode file.
    Battery,
    /// Toggle the fn-lock file.
    FnLock,
    /// Announce the camera state after a physical key event.
    CameraNotify,
    /// No command given: print the usage hint.
    Usage,
    /// An unrecognized command word: print the feature hint.
    Unknown,
}

/// The command the argument list selects: the word after the program name,
/// or usage when there is none.
pub open spec fn command_of(args: Seq<Seq<char>>) -> ActuatorCommand {
    if args.len() < 2 {
        ActuatorCommand::Usage
    } else if args[1] == "battery"@ {
        ActuatorCommand::Battery
    } else if args[1] == "fnlock"@ {
        ActuatorCommand::FnLock
    } else if args[1] == "camera-notify"@ {
        ActuatorCommand::CameraNotify
    } else {
        ActuatorCommand::Unknown
    }
}

/// Whether the argument list carries the quiet flag anywhere.
pub open spec fn quiet_of(args: Seq<Seq<char>>) -> bool {
    exists|k: int| 0 <= k < args.len() && args[k] == "--quiet"@
}

/// Read the command and the quiet flag off the argument list.
pub fn parse_command(args: &Vec<String>) -> (r: (ActuatorCommand, bool))
    ensures
        r.0 == command_of(args.deep_view()),
        r.1 == quiet_of(args.deep_view()),
{
    let mut quiet = false;
    let mut i: usize = 0;
    while i < args.len()
        invariant
            i <= args@.len(),
            quiet == exists|k: int| 0 <= k < i && args.deep_view()[k] == "--quiet"@,
        decreases args@.len() - i,
    {
        proof {
            assert(args.deep_view()[i as int] == args@[i as int]@);
        }
        if str_eq(args[i].as_str(), "--quiet") {
            quiet = true;
            proof {
                assert(args.deep_view()[i as int] == "--quiet"@);
            }
        }
        i += 1;
    }
    let cmd = if args.len() < 2 {
        ActuatorCommand::Usage
    } else if str_eq(args[1].as_str(), "battery") {
        ActuatorCommand::Battery
    } else if str_eq(args[1].as_str(), "fnlock") {
        ActuatorCommand::FnLock
    } else if str_eq(args[1].as_str(), "camera-notify") {
        ActuatorCommand::CameraNotify
    } else {
        ActuatorCommand::Unknown
    };
    (cmd, quiet)
}

/// What a toggle command says after its write landed: the desktop
/// notification and the console confirmation, or silence.
pub struct ToggleReport {
    pub icon: String,
    pub title: String,
    pub message: String,
    pub console: String,
}

/// The state word used in toggle announcements.
pub open spec fn state_text(on: bool) -> Seq<char> {
    if on {
        "ON"@
    } else {
        "OFF"@
    }
}

/// The report for a successful toggle. Under the quiet flag there is none:
/// neither the notification dispatcher nor the console is to be invoked,
/// since the observer mirrors the change on its next poll.
pub fn toggle_report(feature: &str, icon: &str, new_state: bool, quiet: bool) -> (r: Option<
    ToggleReport,
>)
    ensures
        quiet ==> r is None,
        !quiet ==> match r {
            Some(rep) => rep.icon@ == icon@ && rep.title@ == feature@ && rep.message@ == feature@
                + " is now "@ + state_text(new_state) && rep.console@ == "Success! "@ + feature@
                + " is "@ + state_text(new_state),
            None => false,
        },
{
    if quiet {
        return None;
    }
    let state_str = if new_state {
        "ON"
    } else {
        "OFF"
    };
    let mut message = String::from_str(feature);
    message.append(" is now ");
    message.append(state_str);
    let mut console = String::from_str("Success! ");
    console.append(feature);
    console.append(" is ");
    console.append(state_str);
    Some(
        ToggleReport {
            icon: String::from_str(icon),
            title: String::from_str(feature),
            message,
            console,
        },
    )
}

} // verus!
