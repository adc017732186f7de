//! The clock abstraction both pacing components lean on: the current time as
//! whole seconds since the Unix epoch, and the saturating elapsed-seconds
//! computation that treats a backwards clock step as no time having passed.

use vstd::prelude::*;

verus! {

/// Seconds elapsed from `since` to `now`, with a negative delta (a clock that
/// stepped backwards) flattened to zero, so that an anomalous clock reads as
/// "no time has passed" rather than failing.
pub open spec fn elapsed_secs(since: u64, now: u64) -> int {
    if now >= since {
        now - since
    } else {
        0
    }
}

/// Relies on std::time::SystemTime::now for the current wall-clock time,
/// reduced to whole seconds since the Unix epoch; a clock reading before the
/// epoch is reported as zero.  Nothing can be promised of the value: the
/// clock may report anything, and callers must hold for every reading.
#[verifier::external_body]
pub(crate) fn now_seconds() -> u64 {
    match std::time::SystemTime::now().duration_since(std::time::UNIX_EPOCH) {
        Ok(d) => d.as_secs(),
        Err(_) => 0,
    }
}

/// Executable counterpart of [`elapsed_secs`]: how many whole seconds lie
/// between `since` and `now`, saturating at zero when the clock went
/// backwards.
pub fn elapsed_since(since: u64, now: u64) -> (r: u64)
    ensures
        r == elapsed_secs(since, now),
{
    if now >= since {
        now - since
    } else {
        0
    }
}

} // verus!
