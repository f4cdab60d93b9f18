//! Typed bindings for the POSIX clock and sleep interfaces.
//!
//! The library reads system clocks (`clock_gettime`, `clock_getres`) and
//! suspends the calling thread (`clock_nanosleep`), translating the raw
//! results of the underlying calls into typed values: a [`Timespec`]
//! pair of seconds and nanoseconds, a typed clock selector ([`ClockId`],
//! [`DynamicClockId`]), and a three-way sleep outcome
//! ([`NanosleepRelativeResult`]). The logic around each call — resolving a
//! dynamic clock selector to a raw clock identifier, rejecting selectors the
//! platform does not support, and computing the duration still untaken when a
//! sleep is interrupted — is verified.

pub mod clocks;
pub mod sleep;
mod sys;
pub mod types;

pub use clocks::{clock_getres, clock_gettime, clock_gettime_dynamic, fd_clock_id, resolve_clock_id};
pub use sleep::{
    clock_nanosleep_absolute, clock_nanosleep_relative, interrupted_remainder, nanosleep,
    remaining_duration,
};
pub use types::{
    ClockId, DynamicClockId, Errno, NanosleepRelativeResult, Platform, Timespec,
};
