//! Trait-based variants of the fixed-window throttler, reached through a
//! `Throttle` trait: one whose gate reports a status code, and one whose gate
//! only adjusts the internal state.  Both follow the same window conventions
//! as [`crate::throttler`].

pub mod adjust;
pub mod throttler;
