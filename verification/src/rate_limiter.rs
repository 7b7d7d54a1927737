//! Call-site rate limiting for infrequent runtime events.
//!
//! Each call site keeps the earliest second, on a monotonic process-relative
//! clock, at which it may run again. A call runs when that second has come,
//! and moves it one interval past the current time; every other call is
//! skipped. The state starts at zero, so the first call always runs.

use vstd::prelude::*;

verus! {

/// One second in nanoseconds.
pub const NANOS_PER_SEC: u32 = 1_000_000_000;

/// A span of time: whole seconds and the nanoseconds past them.
#[derive(Debug, Clone, Copy, PartialEq, Eq, Structural)]
pub struct Elapsed {
    pub secs: u64,
    pub nanos: u32,
}

impl Elapsed {
    /// The nanoseconds stay below one second.
    pub open spec fn well_formed(self) -> bool {
        self.nanos < NANOS_PER_SEC
    }

    /// A span of `secs` seconds and `nanos` nanoseconds (`nanos` below one second).
    pub fn new(secs: u64, nanos: u32) -> (r: Elapsed)
        requires
            nanos < NANOS_PER_SEC,
        ensures
            r == (Elapsed { secs, nanos }),
            r.well_formed(),
    {
        Elapsed { secs, nanos }
    }

    /// A span of whole seconds.
    pub fn from_secs(secs: u64) -> (r: Elapsed)
        ensures
            r == (Elapsed { secs, nanos: 0 }),
            r.well_formed(),
    {
        Elapsed { secs, nanos: 0 }
    }
}

/// The whole seconds of `a + b`, or `u64::MAX` when the sum overflows (the
/// sum saturates at the largest duration).
pub open spec fn spec_saturating_sum_secs(a: Elapsed, b: Elapsed) -> u64 {
    let carry: int = if a.nanos + b.nanos >= NANOS_PER_SEC { 1 } else { 0 };
    let total = a.secs + b.secs + carry;
    if total > u64::MAX { u64::MAX } else { total as u64 }
}

/// The decision for one call: `Some(next)` when the call runs, with the new
/// earliest second `next`; `None` when it is skipped.
pub open spec fn spec_next_call(next: u64, now: Elapsed, interval: Elapsed) -> Option<u64> {
    if next <= now.secs {
        Some(spec_saturating_sum_secs(now, interval))
    } else {
        None
    }
}

/// The whole seconds of `a + b`, saturating at `u64::MAX`.
pub fn saturating_sum_secs(a: Elapsed, b: Elapsed) -> (r: u64)
    requires
        a.well_formed(),
        b.well_formed(),
    ensures
        r == spec_saturating_sum_secs(a, b),
{
    let carry: u64 = if a.nanos >= NANOS_PER_SEC - b.nanos { 1 } else { 0 };
    match a.secs.checked_add(b.secs) {
        Some(s) => match s.checked_add(carry) {
            Some(t) => t,
            None => u64::MAX,
        },
        None => u64::MAX,
    }
}

/// Decides whether a call at time `now` runs, given the call site's earliest
/// second `next`. When it runs, the call site must move on to the returned
/// second, one `interval` past `now`.
pub fn next_call(next: u64, now: Elapsed, interval: Elapsed) -> (r: Option<u64>)
    requires
        now.well_formed(),
        interval.well_formed(),
    ensures
        r == spec_next_call(next, now, interval),
{
    if next <= now.secs {
        Some(saturating_sum_secs(now, interval))
    } else {
        None
    }
}

/// Law: the first call at a call site always runs.
pub proof fn lemma_first_call_runs(now: Elapsed, interval: Elapsed)
    ensures
        spec_next_call(0, now, interval) is Some,
{
}

/// Law: after a call runs at `now`, every call before `now + interval` (in
/// whole seconds) is skipped; in particular, with an interval of at least one
/// second, a second call in the same second is skipped. (At the very last
/// second of the clock the saturated state lets calls through again.)
pub proof fn lemma_at_most_once_per_interval(next: u64, now: Elapsed, later: Elapsed, interval: Elapsed)
    requires
        spec_next_call(next, now, interval) is Some,
        later.secs < now.secs + interval.secs,
        later.secs < u64::MAX,
    ensures
        spec_next_call(spec_next_call(next, now, interval)->0, later, interval) is None,
{
}

/// Law: a call runs again once the interval has passed.
pub proof fn lemma_runs_again_after_interval(next: u64, now: Elapsed, later: Elapsed, interval: Elapsed)
    requires
        spec_next_call(next, now, interval) is Some,
        later.secs >= spec_saturating_sum_secs(now, interval),
    ensures
        spec_next_call(spec_next_call(next, now, interval)->0, later, interval) is Some,
{
}

} // verus!
