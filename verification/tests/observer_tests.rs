//! The observer's poll-and-diff step and the indicator bitmap.

use lenovo_assist::icon::icon_rgba;
use lenovo_assist::observer::{reconcile, Snapshot};

fn snap(cam: bool, bat: bool, fnl: bool) -> Snapshot {
    Snapshot { camera_blocked: cam, battery_conservation: bat, fn_lock: fnl }
}

#[test]
fn unchanged_state_is_a_noop() {
    // Idempotence of no-op ticks: count how often the update path runs
    // across two polls of unchanged hardware.
    let cache = snap(false, true, false);
    let fresh = snap(true, true, false);
    let mut updates: u32 = 0;
    let mut cache = cache;
    for _ in 0..2 {
        if let Some(next) = reconcile(cache, fresh) {
            cache = next;
            updates += 1;
        }
    }
    assert_eq!(updates, 1);
    assert_eq!(cache, fresh);
}

#[test]
fn any_single_change_updates_everything() {
    let cache = snap(false, false, false);
    assert_eq!(reconcile(cache, snap(true, false, false)), Some(snap(true, false, false)));
    assert_eq!(reconcile(cache, snap(false, true, false)), Some(snap(false, true, false)));
    assert_eq!(reconcile(cache, snap(false, false, true)), Some(snap(false, false, true)));
    assert_eq!(reconcile(cache, cache), None);
}

fn pixel(rgba: &[u8], x: usize, y: usize) -> [u8; 4] {
    let base = 4 * (32 * y + x);
    [rgba[base], rgba[base + 1], rgba[base + 2], rgba[base + 3]]
}

#[test]
fn icon_has_full_size() {
    assert_eq!(icon_rgba(false, false, false).len(), 32 * 32 * 4);
}

#[test]
fn icon_background_is_dark() {
    let rgba = icon_rgba(true, true, true);
    assert_eq!(pixel(&rgba, 0, 0), [40, 40, 40, 255]);
    assert_eq!(pixel(&rgba, 11, 16), [40, 40, 40, 255]);
    assert_eq!(pixel(&rgba, 31, 31), [40, 40, 40, 255]);
}

#[test]
fn camera_led_shows_blocked_and_live() {
    let blocked = icon_rgba(true, false, false);
    assert_eq!(pixel(&blocked, 5, 16), [255, 80, 80, 255]);
    let live = icon_rgba(false, false, false);
    assert_eq!(pixel(&live, 5, 16), [80, 255, 80, 255]);
}

#[test]
fn battery_led_shows_state() {
    let on = icon_rgba(false, true, false);
    assert_eq!(pixel(&on, 16, 12), [50, 200, 100, 255]);
    let off = icon_rgba(false, false, false);
    assert_eq!(pixel(&off, 16, 12), [100, 100, 100, 255]);
}

#[test]
fn fn_lock_led_shows_state() {
    let on = icon_rgba(false, false, true);
    assert_eq!(pixel(&on, 30, 20), [50, 200, 255, 255]);
    let off = icon_rgba(false, false, false);
    assert_eq!(pixel(&off, 30, 20), [100, 100, 100, 255]);
}
