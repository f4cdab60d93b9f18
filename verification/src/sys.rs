//! The calls into the OS, made through the `nix` crate's safe bindings.
//! Each function here is trusted: its contract states what the underlying
//! call is documented to do, and nothing is proved about its body.

use vstd::prelude::*;

use crate::types::sleepable_clock;
use crate::types::Errno;
use crate::types::Timespec;

verus! {

/// Relies on `nix::time::clock_getres` (`clock_getres(2)`): on success the
/// out-parameter holds the clock's resolution, a duration, so its seconds
/// are non-negative and its nanoseconds lie in `[0, 1_000_000_000)`.
#[verifier::external_body]
pub(crate) fn sys_clock_getres(raw_id: i32) -> (r: Result<Timespec, Errno>)
    ensures
        r matches Ok(t) ==> t.is_duration(),
{
    match nix::time::clock_getres(nix::time::ClockId::from_raw(raw_id)) {
        Ok(t) => Ok(Timespec { tv_sec: t.tv_sec(), tv_nsec: t.tv_nsec() }),
        Err(e) => Err(Errno { code: e as i32 }),
    }
}

/// Relies on `nix::time::clock_gettime` (`clock_gettime(2)`): on success the
/// out-parameter holds the clock's current time with its nanosecond field
/// normalized to `[0, 1_000_000_000)`.
#[verifier::external_body]
pub(crate) fn sys_clock_gettime(raw_id: i32) -> (r: Result<Timespec, Errno>)
    ensures
        r matches Ok(t) ==> t.nsec_in_range(),
{
    match nix::time::clock_gettime(nix::time::ClockId::from_raw(raw_id)) {
        Ok(t) => Ok(Timespec { tv_sec: t.tv_sec(), tv_nsec: t.tv_nsec() }),
        Err(e) => Err(Errno { code: e as i32 }),
    }
}

/// Relies on `nix::time::clock_nanosleep` (`clock_nanosleep(2)`): suspends
/// the thread for the requested duration (or, with `absolute`, until the
/// requested point on the clock), returning `Ok` when the request was met
/// and otherwise the raw error number, which is non-negative (`nix` maps
/// error numbers it does not know to zero). A relative request of zero on a
/// clock that supports sleeping has already elapsed when the call is made,
/// so the thread is not suspended, no signal can interrupt the sleep, and
/// none of the documented errors applies: the call succeeds.
#[verifier::external_body]
pub(crate) fn sys_clock_nanosleep(raw_id: i32, absolute: bool, request: &Timespec) -> (r: Result<
    (),
    i32,
>)
    ensures
        r matches Err(code) ==> code >= 0,
        !absolute && request.tv_sec == 0 && request.tv_nsec == 0 && sleepable_clock(raw_id)
            ==> r is Ok,
{
    let flags = if absolute {
        nix::time::ClockNanosleepFlags::TIMER_ABSTIME
    } else {
        nix::time::ClockNanosleepFlags::empty()
    };
    let ts = nix::sys::time::TimeSpec::new(request.tv_sec, request.tv_nsec);
    match nix::time::clock_nanosleep(nix::time::ClockId::from_raw(raw_id), flags, &ts) {
        Ok(_) => Ok(()),
        Err(e) => Err(e as i32),
    }
}

} // verus!
