//! Cadence of the runtime pump, and the bounded retries it makes while
//! overlay windows settle.

use vstd::prelude::*;

verus! {

/// Pump period, in milliseconds, while only the settings window is open.
pub const IDLE_TICK_INTERVAL: u64 = 250;

/// Pump period, in milliseconds, at frame rate: overlays, drags, or the
/// resident (window-less) runtime.
pub const ACTIVE_TICK_INTERVAL: u64 = 16;

/// The pump period in milliseconds: low frequency only when the settings
/// window is open and no overlay or snap drag is active.
pub fn tick_interval(settings_open: bool, overlay_active: bool, snap_active: bool) -> (ms: u64)
    ensures
        ms == (if settings_open && !overlay_active && !snap_active {
            IDLE_TICK_INTERVAL
        } else {
            ACTIVE_TICK_INTERVAL
        }),
{
    if settings_open && !overlay_active && !snap_active {
        IDLE_TICK_INTERVAL
    } else {
        ACTIVE_TICK_INTERVAL
    }
}

/// Tries at patching an overlay window's style (about one second of
/// frames): the windows can appear several ticks after they are opened.
pub const OVERLAY_PATCH_ATTEMPTS: u8 = 60;

/// Tries at ordering the preview below the radial menu.
pub const PREVIEW_ORDER_ATTEMPTS: u8 = 12;

/// The try count after one pump tick: a success uses up the budget so no
/// further try is made, a failure counts one try, and once the budget is
/// spent nothing is tried. An attempt is made only while `tries < limit`;
/// `succeeded` is its outcome.
pub fn next_tries(tries: u8, limit: u8, succeeded: bool) -> (n: u8)
    ensures
        n == (if tries >= limit {
            tries
        } else if succeeded {
            limit
        } else {
            (tries + 1) as u8
        }),
{
    if tries >= limit {
        tries
    } else if succeeded {
        limit
    } else {
        tries + 1
    }
}

} // verus!
