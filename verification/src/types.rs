//! The data the clock interfaces speak of: time values, clock selectors,
//! error codes, and sleep outcomes.

use vstd::prelude::*;

verus! {

/// Nanoseconds in one second.
pub const NANOS_PER_SEC: i64 = 1_000_000_000;

/// The `EINTR` error number: a blocking call was interrupted by a signal.
/// Linux ABI value, as `<errno.h>` defines it.
pub const EINTR_CODE: i32 = 4;

/// The `EINVAL` error number: an argument was invalid. Linux ABI value, as
/// `<errno.h>` defines it.
pub const EINVAL_CODE: i32 = 22;

/// The raw clock identifiers `clock_nanosleep(2)` documents as usable for
/// sleeping: the realtime, monotonic, boot-time and atomic-time clocks, and
/// the process CPU-time clock. Sleeps on the other clocks are rejected by
/// the OS.
pub open spec fn sleepable_clock(raw_id: i32) -> bool {
    raw_id == 0 || raw_id == 1 || raw_id == 2 || raw_id == 7 || raw_id == 11
}

/// A time value: seconds and nanoseconds, mirroring the layout of the OS's
/// native `struct timespec`. Depending on context it denotes either a point
/// on some clock's timeline or a duration. No invariant is enforced by the
/// type itself; well-formed values satisfy [`Timespec::nsec_in_range`], and
/// durations additionally have non-negative seconds
/// ([`Timespec::is_duration`]).
#[derive(Clone, Copy, Debug, PartialEq, Eq, Structural)]
pub struct Timespec {
    /// Whole seconds.
    pub tv_sec: i64,
    /// Nanoseconds; in a well-formed value, within `[0, NANOS_PER_SEC)`.
    pub tv_nsec: i64,
}

impl Timespec {
    /// The whole value as a count of nanoseconds.
    pub open spec fn total_ns(self) -> int {
        self.tv_sec * (NANOS_PER_SEC as int) + self.tv_nsec
    }

    /// The nanosecond field is normalized.
    pub open spec fn nsec_in_range(self) -> bool {
        0 <= self.tv_nsec < NANOS_PER_SEC as int
    }

    /// The value is a well-formed, non-negative duration.
    pub open spec fn is_duration(self) -> bool {
        self.tv_sec >= 0 && self.nsec_in_range()
    }

    /// Builds a time value from its two fields.
    pub fn new(tv_sec: i64, tv_nsec: i64) -> (r: Timespec)
        ensures
            r == (Timespec { tv_sec, tv_nsec }),
    {
        Timespec { tv_sec, tv_nsec }
    }

    /// The zero duration.
    pub fn zero() -> (r: Timespec)
        ensures
            r.tv_sec == 0 && r.tv_nsec == 0,
            r.is_duration(),
            r.total_ns() == 0,
    {
        Timespec { tv_sec: 0, tv_nsec: 0 }
    }

    /// Runtime check for [`Timespec::is_duration`].
    pub fn check_is_duration(&self) -> (r: bool)
        ensures
            r == self.is_duration(),
    {
        self.tv_sec >= 0 && 0 <= self.tv_nsec && self.tv_nsec < NANOS_PER_SEC
    }
}

/// An OS error, carrying the raw error number the call reported.
#[derive(Clone, Copy, Debug, PartialEq, Eq, Structural)]
pub struct Errno {
    /// The raw error number (an `errno` value).
    pub code: i32,
}

impl Errno {
    /// Wraps a raw error number.
    pub fn new(code: i32) -> (r: Errno)
        ensures
            r.code == code,
    {
        Errno { code }
    }

    /// The invalid-argument error, reported without consulting the OS when a
    /// requested clock selector is not supported on the running platform.
    pub fn invalid_argument() -> (r: Errno)
        ensures
            r.code == EINVAL_CODE,
    {
        Errno { code: EINVAL_CODE }
    }
}

/// A fixed, well-known clock, selectable on the platforms this library
/// supports. Each variant stands for one OS clock identifier.
#[derive(Clone, Copy, Debug, PartialEq, Eq, Structural)]
pub enum ClockId {
    /// The settable wall clock.
    Realtime,
    /// A clock that increments steadily and is never set.
    Monotonic,
    /// CPU time consumed by the calling process.
    ProcessCPUTime,
    /// CPU time consumed by the calling thread.
    ThreadCPUTime,
    /// Like `Realtime`, but coarser and faster to read.
    RealtimeCoarse,
    /// Like `Monotonic`, but coarser and faster to read.
    MonotonicCoarse,
    /// Like `Monotonic`, but without frequency adjustments.
    MonotonicRaw,
}

impl ClockId {
    /// The raw OS clock identifier of this clock: the Linux ABI values of
    /// `CLOCK_REALTIME`, `CLOCK_MONOTONIC` and the rest, as `<time.h>`
    /// defines them.
    pub open spec fn spec_raw(self) -> i32 {
        match self {
            ClockId::Realtime => 0,
            ClockId::Monotonic => 1,
            ClockId::ProcessCPUTime => 2,
            ClockId::ThreadCPUTime => 3,
            ClockId::MonotonicRaw => 4,
            ClockId::RealtimeCoarse => 5,
            ClockId::MonotonicCoarse => 6,
        }
    }

    /// The raw OS clock identifier of this clock.
    pub fn as_raw(self) -> (r: i32)
        ensures
            r == self.spec_raw(),
    {
        match self {
            ClockId::Realtime => 0,
            ClockId::Monotonic => 1,
            ClockId::ProcessCPUTime => 2,
            ClockId::ThreadCPUTime => 3,
            ClockId::MonotonicRaw => 4,
            ClockId::RealtimeCoarse => 5,
            ClockId::MonotonicCoarse => 6,
        }
    }
}

/// A clock selector resolved at runtime: either a fixed, well-known clock,
/// or one of the selectors that only some platforms provide — a clock bound
/// to an open file descriptor, or one of the extended fixed identifiers.
#[derive(Clone, Copy, Debug, PartialEq, Eq, Structural)]
pub enum DynamicClockId {
    /// A fixed, well-known clock.
    Known(ClockId),
    /// A clock bound to an open file descriptor (given here as the raw
    /// descriptor value), such as a hardware PTP clock device.
    Dynamic(i32),
    /// The wall clock, also waking a suspended system for timers.
    RealtimeAlarm,
    /// International Atomic Time.
    Tai,
    /// Like the monotonic clock, but also counting time spent suspended.
    Boottime,
    /// Like `Boottime`, also waking a suspended system for timers.
    BoottimeAlarm,
}

/// What the running platform provides. The selectors beyond the fixed,
/// well-known clocks exist only on some platforms; a selector requested on a
/// platform without them is rejected with an invalid-argument error before
/// any call reaches the OS.
#[derive(Clone, Copy, Debug, PartialEq, Eq, Structural)]
pub struct Platform {
    /// Whether the platform provides file-descriptor-bound clocks and the
    /// extended fixed identifiers (the alarm clocks, atomic time, and boot
    /// time).
    pub dynamic_clocks: bool,
}

impl Platform {
    /// The platform this library's OS calls are compiled for, which
    /// provides the dynamic and extended clock selectors.
    pub fn host() -> (r: Platform)
        ensures
            r.dynamic_clocks,
    {
        Platform { dynamic_clocks: true }
    }
}

/// The outcome of a relative sleep.
#[derive(Clone, Copy, Debug, PartialEq, Eq, Structural)]
pub enum NanosleepRelativeResult {
    /// The requested duration elapsed in full.
    Completed,
    /// A signal interrupted the sleep; the payload is the duration still
    /// untaken, which a caller may use to resume sleeping.
    Interrupted(Timespec),
    /// The OS reported an error.
    Failed(Errno),
}

} // verus!
