//! A fixed-window throttler whose gate is reached through the [`Throttle`]
//! trait and reports a [`StatusCode`].  Window conventions are those of
//! [`crate::throttler`]: the window expires once `elapsed >= period`, the
//! call that reopens it is accepted without being counted, and a clock that
//! stepped backwards reads as zero elapsed time.

use vstd::prelude::*;

use crate::clock::{elapsed_secs, now_seconds};

verus! {

/// Configuration of a [`Throttler`], immutable for the instance's lifetime.
#[derive(Clone, Copy, PartialEq, Eq, Structural, Debug)]
pub struct ThrottleOptions {
    /// Max. number of calls accepted within one window.
    pub max_num_calls: u16,
    /// Length of the window in seconds.
    pub period_seconds: u64,
}

/// Outcome of one [`Throttle::throttle`] decision.
#[derive(Clone, Copy, PartialEq, Eq, Structural, Debug)]
pub enum StatusCode {
    /// The call may proceed.
    Accepted,
    /// The call arrived inside a full window and must wait.
    Rejected,
    /// Reserved for an unrecoverable time-source failure; never produced
    /// here, since a clock anomaly is read as zero elapsed time.
    ClockError,
}

/// A fixed-window call counter behind the [`Throttle`] trait.
pub struct Throttler {
    /// Calls accepted since the current window opened.
    pub call_times: u16,
    /// Unix second at which the current window opened.
    pub since_time: u64,
    /// Configuration this instance was built with.
    pub options: ThrottleOptions,
}

/// A gate that decides, against its own clock reading, whether a call may
/// proceed, and reports the decision.
pub trait Throttle: Sized {
    /// The state left behind by a call that observes time `now`.
    spec fn next_state(self, now: u64) -> Self;

    /// The decision a call observing time `now` receives.
    spec fn outcome(self, now: u64) -> StatusCode;

    /// Runs one gate decision against the implementor's clock reading.  The
    /// clock may report anything, so the contract promises only that state
    /// and result agree on the transition at some observed time.
    fn throttle(&mut self) -> (r: StatusCode)
        ensures
            exists|now: u64|
                #![auto]
                *final(self) == old(self).next_state(now) && r == old(self).outcome(now),
    ;
}

impl Throttler {
    /// Creates a throttler whose first window opens at the current clock
    /// reading, with no calls counted yet.
    pub fn new(t: &ThrottleOptions) -> (r: Throttler)
        ensures
            r.options == *t,
            r.call_times == 0,
    {
        Throttler::new_at(t, now_seconds())
    }

    /// Creates a throttler whose first window opens at `now`, with no calls
    /// counted yet.
    pub fn new_at(t: &ThrottleOptions, now: u64) -> (r: Throttler)
        ensures
            r.options == *t,
            r.call_times == 0,
            r.since_time == now,
    {
        Throttler { call_times: 0, since_time: now, options: *t }
    }

    /// The current window is over: at least `period_seconds` have elapsed
    /// since it opened.
    pub open spec fn window_expired(self, now: u64) -> bool {
        elapsed_secs(self.since_time, now) >= self.options.period_seconds
    }

    /// Runs one throttling decision as of time `now`: exactly the transition
    /// [`Throttle::next_state`] with the decision [`Throttle::outcome`].
    pub fn throttle_at(&mut self, now: u64) -> (r: StatusCode)
        ensures
            *final(self) == old(self).next_state(now),
            r == old(self).outcome(now),
    {
        let elapsed: u64 = crate::clock::elapsed_since(self.since_time, now);
        if elapsed >= self.options.period_seconds {
            self.call_times = 0;
            self.since_time = now;
            StatusCode::Accepted
        } else if self.call_times >= self.options.max_num_calls {
            StatusCode::Rejected
        } else {
            self.call_times = self.call_times + 1;
            StatusCode::Accepted
        }
    }
}

impl Throttle for Throttler {
    /// An expired window reopens at `now` with the counter cleared, a full
    /// window leaves the state untouched, and an accepted in-window call is
    /// charged to the counter.
    open spec fn next_state(self, now: u64) -> Throttler {
        if self.window_expired(now) {
            Throttler { call_times: 0, since_time: now, ..self }
        } else if self.call_times >= self.options.max_num_calls {
            self
        } else {
            Throttler { call_times: (self.call_times + 1) as u16, ..self }
        }
    }

    /// Accepted when the window has expired or still has room, rejected when
    /// it is full.
    open spec fn outcome(self, now: u64) -> StatusCode {
        if self.window_expired(now) {
            StatusCode::Accepted
        } else if self.call_times >= self.options.max_num_calls {
            StatusCode::Rejected
        } else {
            StatusCode::Accepted
        }
    }

    fn throttle(&mut self) -> (r: StatusCode) {
        let now: u64 = now_seconds();
        self.throttle_at(now)
    }
}

} // verus!
