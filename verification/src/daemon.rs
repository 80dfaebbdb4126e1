//! The renewal daemon's timing decision.
//!
//! The daemon loop itself - read the expiry under shared access, sleep, take
//! exclusive access, refresh - runs outside the library; the one decision it
//! makes each cycle, how long to sleep, is computed and verified here.

use vstd::prelude::*;

verus! {

/// The daemon's sleep before the next refresh: two minutes short of the
/// reported expiry, clamped at zero when the expiry is that close or closer.
pub open spec fn spec_sleep_duration(expires_in: u64) -> u64 {
    if expires_in <= 120 {
        0
    } else {
        (expires_in - 120) as u64
    }
}

/// Computes how many seconds the daemon sleeps before refreshing: the
/// reported expiry minus a two-minute margin, never underflowing.
pub fn sleep_duration(expires_in: u64) -> (r: u64)
    ensures
        r == spec_sleep_duration(expires_in),
        r <= expires_in,
{
    if expires_in <= 120 {
        0
    } else {
        expires_in - 120
    }
}

} // verus!
