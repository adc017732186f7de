//! Call-pacing primitives: a fixed-window [`throttler::Throttler`] that caps
//! how many operations are accepted per period, and a minimum-interval
//! [`debouncer::Debouncer`] that rejects operations arriving too soon after
//! the previous attempt.
//!
//! Both components keep their state as plain second-resolution timestamps and
//! counters, decide accept/reject lazily on each call, and never panic.  The
//! `*_at` methods take the current time explicitly and carry the full
//! contracts; the plain gate methods read the system clock and then behave as
//! the `*_at` methods do for the time they observed.

pub mod adjust;
pub mod clock;
pub mod debouncer;
pub mod laws;
pub mod throttler;
