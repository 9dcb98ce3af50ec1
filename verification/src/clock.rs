//! Times in nanoseconds on one monotonic clock.

use vstd::prelude::*;

verus! {

/// The time from `since` to `now`; zero if `now` lies before it.
pub open spec fn elapsed(now: u64, since: u64) -> int {
    if now >= since {
        now - since
    } else {
        0
    }
}

/// The time from `start` to `now`; zero if `now` lies before it.
pub fn since(now: u64, start: u64) -> (t: u64)
    ensures
        t == elapsed(now, start),
{
    if now >= start {
        now - start
    } else {
        0
    }
}

} // verus!
