//! Per-frame allocation tracker, as built without the `alloc-tracking`
//! debug feature: tracking is compiled out, so nothing is ever counted.
use vstd::prelude::*;

verus! {

/// Enable allocation tracking (call once at startup). Tracking is compiled
/// out, so this does nothing.
pub fn install() {
}

/// The number of allocations since the last reset: always zero, since
/// tracking is compiled out.
pub fn frame_alloc_count() -> (r: u64)
    ensures
        r == 0,
{
    0
}

/// Reset the per-frame counter. Tracking is compiled out, so there is
/// nothing to reset.
pub fn reset_frame_count() {
}

} // verus!
