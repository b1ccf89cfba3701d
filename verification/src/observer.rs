//! The observer's reconcile step: compare a fresh reading of the three
//! hardware states against the cached snapshot and decide whether the
//! indicator must be touched.
//!
//! The event loop around it wakes once a second, gathers the fresh reading,
//! and repaints only when this step says so; an unchanged reading leaves the
//! indicator alone.

use vstd::prelude::*;

verus! {

/// One reading of the three hardware states the indicator mirrors.
#[derive(Clone, Copy, Debug, PartialEq, Eq, Structural)]
pub struct Snapshot {
    pub camera_blocked: bool,
    pub battery_conservation: bool,
    pub fn_lock: bool,
}

/// What one poll tick does to the indicator: nothing when the fresh reading
/// equals the cache, otherwise the whole new snapshot is mirrored.
pub open spec fn tick_update(cache: Snapshot, fresh: Snapshot) -> Option<Snapshot> {
    if fresh == cache {
        None
    } else {
        Some(fresh)
    }
}

/// The cache after a tick: replaced wholesale on a change, kept otherwise.
pub open spec fn cache_after(cache: Snapshot, fresh: Snapshot) -> Snapshot {
    match tick_update(cache, fresh) {
        Some(s) => s,
        None => cache,
    }
}

/// One tick's decision. `None` means the update path is not taken at all:
/// no checkmark is touched and no bitmap is regenerated.
pub fn reconcile(cache: Snapshot, fresh: Snapshot) -> (r: Option<Snapshot>)
    ensures
        r == tick_update(cache, fresh),
        r is Some ==> r->Some_0 == fresh,
{
    if fresh == cache {
        None
    } else {
        Some(fresh)
    }
}

/// No-op ticks are idempotent: after any tick, a second tick against
/// unchanged hardware decides `None`, so the update path cannot run twice
/// for one hardware change.
pub proof fn lemma_noop_tick(cache: Snapshot, fresh: Snapshot)
    ensures
        tick_update(cache_after(cache, fresh), fresh) is None,
{
}

} // verus!
