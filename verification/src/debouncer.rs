//! Minimum-interval debouncing: reject any call that arrives before
//! `period_seconds` have elapsed since the previous attempt.
//!
//! Debouncing conventions, chosen once and enforced by the contracts:
//! - Every attempt — accepted or rejected — moves `last_attempt` to the
//!   observed time, so a burst of calls keeps pushing the allowed moment
//!   further out.
//! - A call is accepted as soon as `elapsed >= period` (the boundary
//!   `elapsed == period` counts as enough quiet time).
//! - The very first call is measured against the construction timestamp: with
//!   `period_seconds > 0`, a call quickly after construction is rejected.
//! - `period_seconds == 0` accepts every call: a degenerate "debouncing
//!   disabled" configuration.

use vstd::prelude::*;

use crate::clock::{elapsed_secs, elapsed_since, now_seconds};

verus! {

/// Configuration of a [`Debouncer`], immutable for the instance's lifetime.
#[derive(Clone, Copy, PartialEq, Eq, Structural, Debug)]
pub struct DebounceOptions {
    /// Quiet time in seconds that must elapse since the previous attempt
    /// before a call is accepted.
    pub period_seconds: u64,
}

/// Outcome of one [`Debouncer::debounce`] decision.
#[derive(Clone, Copy, PartialEq, Eq, Structural, Debug)]
pub enum StatusCode {
    /// The call may proceed.
    Accepted,
    /// The call arrived inside the quiet period and must wait.
    Rejected,
    /// Reserved for an unrecoverable time-source failure; the debouncer
    /// itself never produces it, since a clock anomaly is read as zero
    /// elapsed time instead.
    ClockError,
}

/// A minimum-interval gate: the configuration and the second of the most
/// recent attempt, accepted or not.
pub struct Debouncer {
    /// Configuration this instance was built with.
    pub options: DebounceOptions,
    /// Unix second of the most recent attempt (the construction time while no
    /// attempt has been made).
    pub last_attempt: u64,
}

impl Debouncer {
    /// The call arrived too soon: less than `period_seconds` have elapsed
    /// since the previous attempt (a backwards clock step counts as zero
    /// elapsed).
    pub open spec fn too_soon(self, now: u64) -> bool {
        elapsed_secs(self.last_attempt, now) < self.options.period_seconds
    }

    /// The decision a call observing time `now` receives: rejected inside the
    /// quiet period, accepted once enough time has passed.
    pub open spec fn debounce_outcome(self, now: u64) -> StatusCode {
        if self.too_soon(now) {
            StatusCode::Rejected
        } else {
            StatusCode::Accepted
        }
    }

    /// The state after a call observing time `now`: whatever the outcome,
    /// `last_attempt` moves to `now`.
    pub open spec fn debounce_next(self, now: u64) -> Debouncer {
        Debouncer { last_attempt: now, ..self }
    }

    /// Creates a debouncer whose quiet period starts at the current clock
    /// reading.
    pub fn new(options: &DebounceOptions) -> (d: Debouncer)
        ensures
            d.options == *options,
    {
        Debouncer::new_at(options, now_seconds())
    }

    /// Creates a debouncer whose quiet period starts at `now`.
    pub fn new_at(options: &DebounceOptions, now: u64) -> (d: Debouncer)
        ensures
            d.options == *options,
            d.last_attempt == now,
    {
        Debouncer { options: *options, last_attempt: now }
    }

    /// Runs one debouncing decision against the current clock reading.  The
    /// clock may report anything, so the contract promises what holds for
    /// every reading: the transition taken is [`Self::debounce_next`] /
    /// [`Self::debounce_outcome`] at some time, the configuration survives,
    /// and `ClockError` is never produced.
    pub fn debounce(&mut self) -> (r: StatusCode)
        ensures
            final(self).options == old(self).options,
            r != StatusCode::ClockError,
            exists|now: u64|
                #![auto]
                *final(self) == old(self).debounce_next(now) && r == old(self).debounce_outcome(
                    now,
                ),
    {
        let now: u64 = now_seconds();
        self.debounce_at(now)
    }

    /// Runs one debouncing decision as of time `now`: exactly the transition
    /// [`Self::debounce_next`] with outcome [`Self::debounce_outcome`].
    pub fn debounce_at(&mut self, now: u64) -> (r: StatusCode)
        ensures
            *final(self) == old(self).debounce_next(now),
            r == old(self).debounce_outcome(now),
    {
        let elapsed: u64 = elapsed_since(self.last_attempt, now);
        self.last_attempt = now;
        if elapsed < self.options.period_seconds {
            StatusCode::Rejected
        } else {
            StatusCode::Accepted
        }
    }
}

} // verus!
