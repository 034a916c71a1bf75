//! Readings of the system clock.

use vstd::prelude::*;

verus! {

/// Milliseconds since the Unix epoch, by `SystemTime::elapsed` of the epoch; zero where
/// the clock stands before it. Nothing is claimed of the reading: two of them
/// may differ, and a later one may be smaller.
#[verifier::external_body]
pub(crate) fn now_ms() -> (res: u64) {
    std::time::UNIX_EPOCH.elapsed().unwrap_or_default().as_millis() as u64
}

/// The time from `then` to `now`, or zero where the clock was set back in between.
pub open spec fn elapsed(now: u64, then: u64) -> int {
    if now >= then {
        now - then
    } else {
        0
    }
}

/// The time from `then` to `now`, or zero where the clock was set back in between.
pub fn elapsed_ms(now: u64, then: u64) -> (res: u64)
    ensures
        res == elapsed(now, then),
{
    now.saturating_sub(then)
}

} // verus!
