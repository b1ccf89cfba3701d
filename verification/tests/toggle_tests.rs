//! The toggle step on concrete control-file contents.

use lenovo_assist::toggle::{encode_toggle, observed_state, parse_toggle, toggle_content};

#[test]
fn parse_on_and_off() {
    assert_eq!(parse_toggle("1"), Ok(true));
    assert_eq!(parse_toggle("0"), Ok(false));
    assert_eq!(parse_toggle("1\n"), Ok(true));
    assert_eq!(parse_toggle("  0  "), Ok(false));
}

#[test]
fn parse_rejects_unexpected_content() {
    assert!(parse_toggle("").is_err());
    assert!(parse_toggle("2").is_err());
    assert!(parse_toggle("10").is_err());
    assert!(parse_toggle("on").is_err());
    assert!(parse_toggle("value=2").is_err());
}

#[test]
fn encode_is_bare_digit() {
    assert_eq!(encode_toggle(true), "1");
    assert_eq!(encode_toggle(false), "0");
}

#[test]
fn toggle_flips_the_file() {
    // A file containing "1" ends containing "0", and vice versa.
    let (write, state) = toggle_content("1").unwrap();
    assert_eq!(write, "0");
    assert!(!state);
    let (write, state) = toggle_content("0").unwrap();
    assert_eq!(write, "1");
    assert!(state);
}

#[test]
fn toggle_twice_returns_to_original() {
    // Single-threaded: read "1", write "0"; read "0", write "1".
    let (first, _) = toggle_content("1\n").unwrap();
    let (second, _) = toggle_content(first).unwrap();
    assert_eq!(second, "1");
}

#[test]
fn toggle_leaves_unreadable_content_alone() {
    assert!(toggle_content("garbage").is_err());
}

#[test]
fn observer_reads_fail_quiet() {
    // The observer's reading has no error path: only a readable "1" is on.
    assert!(observed_state(Some("1")));
    assert!(observed_state(Some(" 1\n")));
    assert!(!observed_state(Some("0")));
    assert!(!observed_state(Some("2")));
    assert!(!observed_state(Some("")));
    assert!(!observed_state(None));
}

#[test]
fn racing_toggles_leave_a_single_flip() {
    // The documented race: two toggles both read the original "1" before
    // either write lands. Each computes the same write, so the file ends at
    // "0" — one flip — where two sequential toggles would have restored "1".
    let original = "1";
    let (write_a, _) = toggle_content(original).unwrap();
    let (write_b, _) = toggle_content(original).unwrap();
    assert_eq!(write_a, write_b);
    let last_write_wins = write_b;
    assert_eq!(last_write_wins, "0");
    // Sequential double toggle, for contrast:
    let (first, _) = toggle_content(original).unwrap();
    let (second, _) = toggle_content(first).unwrap();
    assert_eq!(second, "1");
    assert_ne!(last_write_wins, second);
}
