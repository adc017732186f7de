//! A fixed-window throttler whose [`Throttle`] gate only adjusts the internal
//! state: callers observe the pacing through the counter and pinned window
//! time rather than through a returned status.  Window conventions are those
//! of [`crate::throttler`]: the window expires once `elapsed >= period`, the
//! call that reopens it is not counted, and a clock that stepped backwards
//! reads as zero elapsed time.

use vstd::prelude::*;

use crate::clock::{elapsed_secs, now_seconds};

verus! {

/// Configuration of a [`Throttler`], immutable for the instance's lifetime.
#[derive(Clone, Copy, PartialEq, Eq, Structural, Debug)]
pub struct ThrottleEnforce {
    /// Max. number of calls accepted within one window.
    pub max_num_calls: u16,
    /// Length of the window in seconds.
    pub period_seconds: u64,
}

/// A fixed-window call counter behind the state-only [`Throttle`] trait.
pub struct Throttler {
    /// Calls accepted since the current window opened.
    pub called_count: u16,
    /// Unix second at which the current window opened.
    pub pinned_time: u64,
    /// Configuration this instance was built with.
    pub options: ThrottleEnforce,
}

/// A gate that decides, against its own clock reading, whether a call may
/// proceed, recording the decision only in its state.
pub trait Throttle: Sized {
    /// The state left behind by a call that observes time `now`.
    spec fn next_state(self, now: u64) -> Self;

    /// Runs one gate decision against the implementor's clock reading.  The
    /// clock may report anything, so the contract promises only that the
    /// state taken is the transition at some observed time.
    fn throttle(&mut self)
        ensures
            exists|now: u64| #![auto] *final(self) == old(self).next_state(now),
    ;
}

impl Throttler {
    /// Creates a throttler whose first window opens at the current clock
    /// reading, with no calls counted yet.
    pub fn new(t: &ThrottleEnforce) -> (r: Throttler)
        ensures
            r.options == *t,
            r.called_count == 0,
    {
        Throttler::new_at(t, now_seconds())
    }

    /// Creates a throttler whose first window opens at `now`, with no calls
    /// counted yet.
    pub fn new_at(t: &ThrottleEnforce, now: u64) -> (r: Throttler)
        ensures
            r.options == *t,
            r.called_count == 0,
            r.pinned_time == now,
    {
        Throttler { called_count: 0, pinned_time: now, options: *t }
    }

    /// The current window is over: at least `period_seconds` have elapsed
    /// since it opened.
    pub open spec fn window_expired(self, now: u64) -> bool {
        elapsed_secs(self.pinned_time, now) >= self.options.period_seconds
    }

    /// Runs one throttling decision as of time `now`: exactly the transition
    /// [`Throttle::next_state`].
    pub fn throttle_at(&mut self, now: u64)
        ensures
            *final(self) == old(self).next_state(now),
    {
        let elapsed: u64 = crate::clock::elapsed_since(self.pinned_time, now);
        if elapsed >= self.options.period_seconds {
            self.called_count = 0;
            self.pinned_time = now;
        } else if self.called_count >= self.options.max_num_calls {
        } else {
            self.called_count = self.called_count + 1;
        }
    }
}

impl Throttle for Throttler {
    /// An expired window reopens at `now` with the counter cleared, a full
    /// window leaves the state untouched, and an accepted in-window call is
    /// charged to the counter.
    open spec fn next_state(self, now: u64) -> Throttler {
        if self.window_expired(now) {
            Throttler { called_count: 0, pinned_time: now, ..self }
        } else if self.called_count >= self.options.max_num_calls {
            self
        } else {
            Throttler { called_count: (self.called_count + 1) as u16, ..self }
        }
    }

    fn throttle(&mut self) {
        let now: u64 = now_seconds();
        self.throttle_at(now);
    }
}

} // verus!
