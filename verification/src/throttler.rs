//! Fixed-window throttling: accept at most `max_call_count` operations per
//! `period_seconds`-second window, rejecting the rest until the window
//! expires.
//!
//! Window accounting conventions, chosen once and enforced by the contracts:
//! - A window is expired as soon as `elapsed >= period` (the boundary
//!   `elapsed == period` counts as expired).
//! - The call that finds the window expired reopens it: the counter resets to
//!   zero, the window start moves to the observed time, and that call is
//!   accepted without being charged against the fresh counter.
//! - `period_seconds == 0` makes every window expired on arrival, so every
//!   call is accepted: a degenerate "throttling disabled" configuration.
//! - `max_call_count == 0` rejects every call inside a live window; only
//!   window expiry lets a call through.

use vstd::prelude::*;

use crate::clock::{elapsed_secs, elapsed_since, now_seconds};

verus! {

/// Configuration of a [`Throttler`], immutable for the instance's lifetime.
#[derive(Clone, Copy, PartialEq, Eq, Structural, Debug)]
pub struct ThrottleOptions {
    /// Max. number of calls accepted within one window.
    pub max_call_count: u16,
    /// Length of the window in seconds.
    pub period_seconds: u64,
}

/// Outcome of one [`Throttler::throttle`] decision.
#[derive(Clone, Copy, PartialEq, Eq, Structural, Debug)]
pub enum StatusCode {
    /// The call may proceed.
    Accepted,
    /// The call arrived inside a full window and must wait.
    Rejected,
    /// Reserved for an unrecoverable time-source failure; the throttler
    /// itself never produces it, since a clock anomaly is read as zero
    /// elapsed time instead.
    ClockError,
}

/// A fixed-window call counter: the configuration, the number of calls
/// accepted in the current window, and the second the window opened.
pub struct Throttler {
    /// Configuration this instance was built with.
    pub options: ThrottleOptions,
    /// Calls accepted since the current window opened.
    pub call_count: u16,
    /// Unix second at which the current window opened.
    pub window_start: u64,
}

impl Throttler {
    /// The current window is over: at least `period_seconds` have elapsed
    /// since it opened (a backwards clock step counts as zero elapsed).
    pub open spec fn window_expired(self, now: u64) -> bool {
        elapsed_secs(self.window_start, now) >= self.options.period_seconds
    }

    /// The decision a call observing time `now` receives: accepted when the
    /// window has expired or still has room, throttled when it is full.
    pub open spec fn throttle_outcome(self, now: u64) -> StatusCode {
        if self.window_expired(now) {
            StatusCode::Accepted
        } else if self.call_count >= self.options.max_call_count {
            StatusCode::Rejected
        } else {
            StatusCode::Accepted
        }
    }

    /// The state after a call observing time `now`: an expired window reopens
    /// at `now` with the counter cleared, a full window leaves the state
    /// untouched, and an accepted in-window call is charged to the counter.
    pub open spec fn throttle_next(self, now: u64) -> Throttler {
        if self.window_expired(now) {
            Throttler { call_count: 0, window_start: now, ..self }
        } else if self.call_count >= self.options.max_call_count {
            self
        } else {
            Throttler { call_count: (self.call_count + 1) as u16, ..self }
        }
    }

    /// Creates a throttler whose first window opens at the current clock
    /// reading, with no calls counted yet.
    pub fn new(options: &ThrottleOptions) -> (t: Throttler)
        ensures
            t.options == *options,
            t.call_count == 0,
    {
        Throttler::new_at(options, now_seconds())
    }

    /// Creates a throttler whose first window opens at `now`, with no calls
    /// counted yet.
    pub fn new_at(options: &ThrottleOptions, now: u64) -> (t: Throttler)
        ensures
            t.options == *options,
            t.call_count == 0,
            t.window_start == now,
    {
        Throttler { options: *options, call_count: 0, window_start: now }
    }

    /// Runs one throttling decision against the current clock reading.  The
    /// clock may report anything, so the contract promises what holds for
    /// every reading: the transition taken is [`Self::throttle_next`] /
    /// [`Self::throttle_outcome`] at some time, the configuration survives,
    /// and `ClockError` is never produced.
    pub fn throttle(&mut self) -> (r: StatusCode)
        ensures
            final(self).options == old(self).options,
            r != StatusCode::ClockError,
            exists|now: u64|
                #![auto]
                *final(self) == old(self).throttle_next(now) && r == old(self).throttle_outcome(
                    now,
                ),
    {
        let now: u64 = now_seconds();
        self.throttle_at(now)
    }

    /// Runs one throttling decision as of time `now`: exactly the transition
    /// [`Self::throttle_next`] with outcome [`Self::throttle_outcome`].
    pub fn throttle_at(&mut self, now: u64) -> (r: StatusCode)
        ensures
            *final(self) == old(self).throttle_next(now),
            r == old(self).throttle_outcome(now),
    {
        let elapsed: u64 = elapsed_since(self.window_start, now);
        if elapsed >= self.options.period_seconds {
            self.call_count = 0;
            self.window_start = now;
            StatusCode::Accepted
        } else if self.call_count >= self.options.max_call_count {
            StatusCode::Rejected
        } else {
            self.call_count = self.call_count + 1;
            StatusCode::Accepted
        }
    }
}

} // verus!
