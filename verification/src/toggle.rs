//! Reading, flipping and re-encoding the boolean control files.
//!
//! A control file's text both reports and sets one hardware feature. The
//! privileged helper reads the current text, negates the state it denotes,
//! and writes the canonical text of the new state back; the file I/O itself
//! happens outside, on plain strings.

use vstd::prelude::*;
use vstd::string::StrSliceExecFns;

use crate::text::{is_space_char, trim_str, trimmed};

verus! {

/// The boolean state a control file's text denotes: trimmed `"1"` is on,
/// trimmed `"0"` is off, anything else is unexpected content.
pub open spec fn toggle_of_text(s: Seq<char>) -> Option<bool> {
    if trimmed(s) == seq!['1'] {
        Some(true)
    } else if trimmed(s) == seq!['0'] {
        Some(false)
    } else {
        None
    }
}

/// The canonical text written back for a state, with no surrounding
/// formatting.
pub open spec fn text_of_toggle(b: bool) -> Seq<char> {
    if b {
        seq!['1']
    } else {
        seq!['0']
    }
}

/// The text one toggle leaves in the file, when the current text is
/// readable at all.
pub open spec fn toggled_text(s: Seq<char>) -> Option<Seq<char>> {
    match toggle_of_text(s) {
        Some(b) => Some(text_of_toggle(!b)),
        None => None,
    }
}

/// A control file held text that is neither `"1"` nor `"0"`.
#[derive(Clone, Copy, Debug, PartialEq, Eq, Structural)]
pub struct UnexpectedContent;

/// Map a control file's text to its boolean state; errors exactly on the
/// texts that denote no state.
pub fn parse_toggle(s: &str) -> (r: Result<bool, UnexpectedContent>)
    ensures
        match r {
            Ok(b) => toggle_of_text(s@) == Some(b),
            Err(_) => toggle_of_text(s@) is None,
        },
{
    let t = trim_str(s);
    if t.unicode_len() == 1 {
        let c = t.get_char(0);
        if c == '1' {
            proof {
                assert(trimmed(s@) =~= seq!['1']);
            }
            return Ok(true);
        }
        if c == '0' {
            proof {
                assert(trimmed(s@) =~= seq!['0']);
            }
            return Ok(false);
        }
    }
    proof {
        assert(trimmed(s@) != seq!['1'] && trimmed(s@) != seq!['0']) by {
            if trimmed(s@) == seq!['1'] {
                assert(trimmed(s@)[0] == '1');
            }
            if trimmed(s@) == seq!['0'] {
                assert(trimmed(s@)[0] == '0');
            }
        }
    }
    Err(UnexpectedContent)
}

/// The canonical text of a state, ready to be written to a control file.
pub fn encode_toggle(b: bool) -> (r: &'static str)
    ensures
        r@ == text_of_toggle(b),
{
    if b {
        let s = "1";
        proof {
            reveal_strlit("1");
            assert(s@ =~= seq!['1']);
        }
        s
    } else {
        let s = "0";
        proof {
            reveal_strlit("0");
            assert(s@ =~= seq!['0']);
        }
        s
    }
}

/// One toggle step: from the file's current text to the text to write back
/// and the state that text denotes. Errors exactly on unreadable content,
/// in which case nothing is to be written.
pub fn toggle_content(current: &str) -> (r: Result<(&'static str, bool), UnexpectedContent>)
    ensures
        match r {
            Ok(p) => toggle_of_text(current@) == Some(!p.1) && p.0@ == text_of_toggle(p.1)
                && toggled_text(current@) == Some(p.0@),
            Err(_) => toggle_of_text(current@) is None && toggled_text(current@) is None,
        },
{
    match parse_toggle(current) {
        Ok(state) => {
            let new_state = !state;
            Ok((encode_toggle(new_state), new_state))
        },
        Err(e) => Err(e),
    }
}

/// The observer's reading of a control file: trimmed `"1"` means on, and
/// anything else — an unreadable file included — counts as off.
pub open spec fn observed_state_of(content: Option<Seq<char>>) -> bool {
    match content {
        Some(s) => trimmed(s) == seq!['1'],
        None => false,
    }
}

/// Read a control file's text the way the observer does, with no error
/// path: whatever cannot be read as on is off.
pub fn observed_state(content: Option<&str>) -> (r: bool)
    ensures
        r == observed_state_of(
            match content {
                Some(s) => Some(s@),
                None => None,
            },
        ),
{
    match content {
        Some(s) => {
            let on = match parse_toggle(s) {
                Ok(b) => b,
                Err(_) => false,
            };
            proof {
                if seq!['1'] == seq!['0'] {
                    assert(seq!['1'][0] == seq!['0'][0]);
                }
            }
            on
        },
        None => false,
    }
}

/// The canonical texts parse back to the states they encode.
pub proof fn lemma_text_of_toggle_parses(b: bool)
    ensures
        toggle_of_text(text_of_toggle(b)) == Some(b),
{
    assert(!is_space_char('1'));
    assert(!is_space_char('0'));
    assert(trimmed(seq!['1']) =~= seq!['1']);
    assert(trimmed(seq!['0']) =~= seq!['0']);
    assert(seq!['1'] != seq!['0']) by {
        if seq!['1'] == seq!['0'] {
            assert(seq!['1'][0] == seq!['0'][0]);
        }
    }
}

/// Toggling twice in sequence returns the file to its original state: the
/// first toggle leaves the text of the negated state, the second leaves the
/// canonical text of the state the original text denoted.
pub proof fn lemma_toggle_round_trip(s: Seq<char>, b: bool)
    requires
        toggle_of_text(s) == Some(b),
    ensures
        toggled_text(s) == Some(text_of_toggle(!b)),
        toggled_text(text_of_toggle(!b)) == Some(text_of_toggle(b)),
        toggle_of_text(text_of_toggle(b)) == Some(b),
{
    lemma_text_of_toggle_parses(b);
    lemma_text_of_toggle_parses(!b);
}

/// The documented race: when two toggles both read the file's original text
/// before either write lands, each writes the same text — the negation of
/// the original — so whichever write lands last, the file ends a single
/// flip away from where it started, not back at the original state that two
/// sequential toggles would restore.
pub proof fn lemma_toggle_race(s: Seq<char>, b: bool)
    requires
        toggle_of_text(s) == Some(b),
    ensures
        toggled_text(s) == Some(text_of_toggle(!b)),
        toggle_of_text(text_of_toggle(!b)) == Some(!b),
        toggle_of_text(toggled_text(toggled_text(s)->Some_0)->Some_0) == Some(b),
        !b != b,
{
    lemma_toggle_round_trip(s, b);
    lemma_text_of_toggle_parses(b);
    lemma_text_of_toggle_parses(!b);
}

} // verus!
