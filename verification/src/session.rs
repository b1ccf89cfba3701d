//! Session discovery and the notification command.
//!
//! Notifications must reach whichever graphical session is active, while the
//! sender usually runs as another user. The runtime-session directory names
//! are scanned for the first all-digit name at or above the conventional
//! first real-user id; the chosen id then fixes the display and message-bus
//! addressing inlined into the re-executed notifier command. Reading the
//! directory, resolving the id to a username and running the command stay
//! outside; with no qualifying name the whole notification is a silent no-op.

use vstd::prelude::*;
use vstd::string::StrSliceExecFns;
use vstd::string::StringExecFns;

verus! {

/// An ASCII decimal digit.
pub open spec fn is_digit(c: char) -> bool {
    48 <= c as u32 <= 57
}

/// The value of one digit character.
pub open spec fn digit_val(c: char) -> int {
    c as u32 - 48
}

pub open spec fn all_digits(s: Seq<char>) -> bool {
    forall|k: int| 0 <= k < s.len() ==> is_digit(s[k])
}

/// The number an all-digit name denotes, most significant digit first.
pub open spec fn digits_val(s: Seq<char>) -> int
    decreases s.len(),
{
    if s.len() == 0 {
        0
    } else {
        digits_val(s.drop_last()) * 10 + digit_val(s.last())
    }
}

/// The session id a runtime directory name denotes: the name must be
/// nonempty, all digits, and fit a 32-bit id, as the scanner accepts it.
pub open spec fn session_uid_of(s: Seq<char>) -> Option<u32> {
    if s.len() > 0 && all_digits(s) && digits_val(s) <= u32::MAX {
        Some(digits_val(s) as u32)
    } else {
        None
    }
}

/// A name that denotes a real user's session: a readable id at or above
/// the first non-system id, 1000.
pub open spec fn is_real_user_session(s: Seq<char>) -> bool {
    match session_uid_of(s) {
        Some(uid) => uid >= 1000,
        None => false,
    }
}

proof fn lemma_digits_val_nonneg(s: Seq<char>)
    requires
        all_digits(s),
    ensures
        digits_val(s) >= 0,
    decreases s.len(),
{
    if s.len() > 0 {
        assert(all_digits(s.drop_last()));
        lemma_digits_val_nonneg(s.drop_last());
    }
}

/// Appending digits never shrinks the value: the whole name is worth at
/// least any of its prefixes.
proof fn lemma_digits_val_prefix(s: Seq<char>, i: int)
    requires
        0 <= i <= s.len(),
        all_digits(s),
    ensures
        digits_val(s) >= digits_val(s.subrange(0, i)),
    decreases s.len() - i,
{
    if i == s.len() {
        assert(s.subrange(0, i) =~= s);
    } else {
        let p = s.subrange(0, i);
        let q = s.subrange(0, i + 1);
        assert(q.drop_last() =~= p);
        assert(q.last() == s[i]);
        assert(all_digits(p));
        lemma_digits_val_nonneg(p);
        assert(digits_val(q) == digits_val(p) * 10 + digit_val(s[i]));
        lemma_digits_val_prefix(s, i + 1);
    }
}

/// Parse a runtime directory name as a session id; `None` exactly on the
/// names the scanner skips: empty, non-digit, or too large for 32 bits.
pub fn parse_uid(s: &str) -> (r: Option<u32>)
    ensures
        r == session_uid_of(s@),
{
    let n = s.unicode_len();
    if n == 0 {
        return None;
    }
    let mut acc: u32 = 0;
    let mut i: usize = 0;
    while i < n
        invariant
            0 < n == s@.len(),
            i <= n,
            forall|k: int| 0 <= k < i ==> is_digit(s@[k]),
            acc == digits_val(s@.subrange(0, i as int)),
        decreases n - i,
    {
        let c = s.get_char(i);
        let v = c as u32;
        if v < 48 || v > 57 {
            proof {
                assert(!is_digit(s@[i as int]));
            }
            return None;
        }
        let d: u32 = v - 48;
        if acc > (u32::MAX - d) / 10 {
            proof {
                let m = u32::MAX as int;
                let di = d as int;
                let q = (m - di) / 10;
                assert(m - di == 10 * q + (m - di) % 10);
                assert(acc * 10 + di > m);
                let pre = s@.subrange(0, i as int);
                let ext = s@.subrange(0, i + 1);
                assert(ext.drop_last() =~= pre);
                assert(ext.last() == s@[i as int]);
                assert(digits_val(ext) == acc * 10 + di);
                if all_digits(s@) {
                    lemma_digits_val_prefix(s@, i + 1);
                }
            }
            return None;
        }
        proof {
            let pre = s@.subrange(0, i as int);
            let ext = s@.subrange(0, i + 1);
            assert(ext.drop_last() =~= pre);
            assert(ext.last() == s@[i as int]);
            let m = u32::MAX as int;
            let di = d as int;
            let q = (m - di) / 10;
            assert(m - di == 10 * q + (m - di) % 10);
            assert(acc * 10 + di <= m);
        }
        acc = acc * 10 + d;
        i += 1;
    }
    proof {
        assert(s@.subrange(0, n as int) =~= s@);
    }
    Some(acc)
}

/// Pick the first runtime directory name that denotes a real user's
/// session. `None` — with no names at all, or none that qualifies — means
/// no user is logged in and the notification is dropped without any
/// external invocation.
pub fn select_session(names: &Vec<String>) -> (r: Option<(usize, u32)>)
    ensures
        match r {
            Some(p) => p.0 < names@.len() && is_real_user_session(names@[p.0 as int]@) && Some(
                p.1,
            ) == session_uid_of(names@[p.0 as int]@) && forall|k: int|
                0 <= k < p.0 ==> !is_real_user_session(names@[k]@),
            None => forall|k: int| 0 <= k < names@.len() ==> !is_real_user_session(names@[k]@),
        },
{
    let mut idx: usize = 0;
    while idx < names.len()
        invariant
            idx <= names@.len(),
            forall|k: int| 0 <= k < idx ==> !is_real_user_session(names@[k]@),
        decreases names@.len() - idx,
    {
        match parse_uid(names[idx].as_str()) {
            Some(uid) => {
                if uid >= 1000 {
                    return Some((idx, uid));
                }
            },
            None => {},
        }
        idx += 1;
    }
    None
}

/// The command line handed to the re-executing shell: the session's display
/// and message-bus address, then the notifier with its icon, title and body.
pub open spec fn payload_text(
    uid: Seq<char>,
    icon: Seq<char>,
    title: Seq<char>,
    message: Seq<char>,
) -> Seq<char> {
    "DISPLAY=:0 DBUS_SESSION_BUS_ADDRESS=unix:path=/run/user/"@ + uid
        + "/bus notify-send -u normal -t 2000 -h string:x-canonical-private-synchronous:lenovo -i "@
        + icon + " '"@ + title + "' '"@ + message + "'"@
}

/// Build the notifier command for a session id and an announcement.
pub fn notification_payload(uid: &str, icon: &str, title: &str, message: &str) -> (r: String)
    ensures
        r@ == payload_text(uid@, icon@, title@, message@),
{
    let mut out = String::from_str("DISPLAY=:0 DBUS_SESSION_BUS_ADDRESS=unix:path=/run/user/");
    out.append(uid);
    out.append(
        "/bus notify-send -u normal -t 2000 -h string:x-canonical-private-synchronous:lenovo -i ",
    );
    out.append(icon);
    out.append(" '");
    out.append(title);
    out.append("' '");
    out.append(message);
    out.append("'");
    proof {
        assert(out@ =~= payload_text(uid@, icon@, title@, message@));
    }
    out
}

} // verus!
