//! The pacing guarantees, stated over the transition functions of
//! [`crate::throttler`] and [`crate::debouncer`] and proved once and for all:
//! how a burst fills a window, what a window reset restores, the minimum
//! spacing a debouncer enforces, which rejections mutate state, how the exact
//! window boundary resolves, and what the degenerate configurations do.

use vstd::prelude::*;

use crate::clock::elapsed_secs;
use crate::debouncer::Debouncer;
use crate::throttler::{StatusCode, Throttler};

verus! {

/// The state a throttler reaches after one call at each time in `times`, in
/// order.
pub open spec fn throttle_run(t: Throttler, times: Seq<u64>) -> Throttler
    decreases times.len(),
{
    if times.len() == 0 {
        t
    } else {
        throttle_run(t.throttle_next(times[0]), times.drop_first())
    }
}

/// How a run of in-window calls moves the counter: while every call of
/// `times` lands inside the window opened at `t.window_start`, the window
/// never reopens, the configuration survives, and the counter climbs by one
/// per call until it reaches `max_call_count`, where it stays (a counter
/// already at or above the cap is never touched).
pub proof fn lemma_throttle_burst_state(t: Throttler, times: Seq<u64>)
    requires
        forall|i: int|
            0 <= i < times.len() ==> elapsed_secs(t.window_start, #[trigger] times[i])
                < t.options.period_seconds,
    ensures
        throttle_run(t, times).options == t.options,
        throttle_run(t, times).window_start == t.window_start,
        throttle_run(t, times).call_count == ({
            let c = t.call_count as int;
            let m = t.options.max_call_count as int;
            if c >= m {
                c
            } else if c + times.len() <= m {
                c + times.len()
            } else {
                m
            }
        }),
    decreases times.len(),
{
    if times.len() > 0 {
        let t1 = t.throttle_next(times[0]);
        assert(!t.window_expired(times[0]));
        assert(t1.window_start == t.window_start && t1.options == t.options);
        assert forall|i: int|
            0 <= i < times.drop_first().len() implies elapsed_secs(
            t1.window_start,
            #[trigger] times.drop_first()[i],
        ) < t1.options.period_seconds by {
            assert(times.drop_first()[i] == times[i + 1]);
        }
        lemma_throttle_burst_state(t1, times.drop_first());
    }
}

/// A fresh throttler under a burst: with `max_call_count = N > 0` and every
/// call of `times` landing inside the window opened at `t.window_start`, the
/// first `N` calls are accepted and every further call is rejected.
pub proof fn lemma_throttle_burst(t: Throttler, times: Seq<u64>)
    requires
        t.call_count == 0,
        t.options.max_call_count > 0,
        forall|i: int|
            0 <= i < times.len() ==> elapsed_secs(t.window_start, #[trigger] times[i])
                < t.options.period_seconds,
    ensures
        forall|i: int|
            0 <= i < times.len() ==> #[trigger] throttle_run(t, times.take(i)).throttle_outcome(
                times[i],
            ) == (if i < t.options.max_call_count {
                StatusCode::Accepted
            } else {
                StatusCode::Rejected
            }),
{
    assert forall|i: int| 0 <= i < times.len() implies #[trigger] throttle_run(
        t,
        times.take(i),
    ).throttle_outcome(times[i]) == (if i < t.options.max_call_count {
        StatusCode::Accepted
    } else {
        StatusCode::Rejected
    }) by {
        assert forall|j: int|
            0 <= j < times.take(i).len() implies elapsed_secs(
            t.window_start,
            #[trigger] times.take(i)[j],
        ) < t.options.period_seconds by {
            assert(times.take(i)[j] == times[j]);
        }
        lemma_throttle_burst_state(t, times.take(i));
        let ti = throttle_run(t, times.take(i));
        assert(!ti.window_expired(times[i]));
    }
}

/// Window reset: a call that finds the window expired is always accepted, and
/// the state it leaves holds only that call — the counter is cleared (the
/// reopening call is not charged) and the window start is the observed time.
pub proof fn lemma_throttle_window_reset(t: Throttler, now: u64)
    requires
        t.window_expired(now),
    ensures
        t.throttle_outcome(now) == StatusCode::Accepted,
        t.throttle_next(now).call_count == 0,
        t.throttle_next(now).window_start == now,
        t.throttle_next(now).options == t.options,
{
}

/// Minimum spacing: a call less than the quiet period after the previous
/// attempt is rejected, and the next call at least the quiet period after
/// that rejected attempt is accepted.
pub proof fn lemma_debounce_spacing(d: Debouncer, second: u64, third: u64)
    requires
        elapsed_secs(d.last_attempt, second) < d.options.period_seconds,
        elapsed_secs(second, third) >= d.options.period_seconds,
    ensures
        d.debounce_outcome(second) == crate::debouncer::StatusCode::Rejected,
        d.debounce_next(second).debounce_outcome(third) == crate::debouncer::StatusCode::Accepted,
{
}

/// The rejection asymmetry: a rejected throttler call leaves the throttler's
/// state exactly as it was, while a debouncer call — whatever its outcome —
/// always moves `last_attempt` to the observed time.
pub proof fn lemma_rejection_mutation_asymmetry(t: Throttler, d: Debouncer, now: u64)
    ensures
        t.throttle_outcome(now) == StatusCode::Rejected ==> t.throttle_next(now) == t,
        d.debounce_next(now).last_attempt == now,
        d.debounce_next(now).options == d.options,
{
}

/// The exact boundary `elapsed == period` resolves the same way everywhere:
/// the throttler's window counts as expired (the call is accepted and the
/// window reopens) and the debouncer's quiet period counts as served (the
/// call is accepted).
pub proof fn lemma_boundary_inclusive(t: Throttler, d: Debouncer, now: u64)
    requires
        elapsed_secs(t.window_start, now) == t.options.period_seconds,
        elapsed_secs(d.last_attempt, now) == d.options.period_seconds,
    ensures
        t.window_expired(now),
        t.throttle_outcome(now) == StatusCode::Accepted,
        t.throttle_next(now).call_count == 0,
        !d.too_soon(now),
        d.debounce_outcome(now) == crate::debouncer::StatusCode::Accepted,
{
}

/// The degenerate configurations are deterministic: a zero-period throttler
/// accepts every call and reopens its window each time, a zero-max throttler
/// rejects every call inside a live window without touching its state, and a
/// zero-period debouncer accepts every call.
pub proof fn lemma_degenerate_configs(t: Throttler, d: Debouncer, now: u64)
    ensures
        t.options.period_seconds == 0 ==> t.throttle_outcome(now) == StatusCode::Accepted
            && t.throttle_next(now).call_count == 0 && t.throttle_next(now).window_start == now,
        t.options.max_call_count == 0 && !t.window_expired(now) ==> t.throttle_outcome(now)
            == StatusCode::Rejected && t.throttle_next(now) == t,
        d.options.period_seconds == 0 ==> d.debounce_outcome(now)
            == crate::debouncer::StatusCode::Accepted,
{
}

} // verus!
