//! Suspending the calling thread: relative sleeps on a chosen clock, an
//! absolute sleep until a point on a chosen clock, and a relative sleep on
//! the default clock.
//!
//! A relative sleep has three outcomes: it completes, a signal interrupts
//! it, or the OS reports an error. On interruption the duration still
//! untaken is reported back, so the caller can resume. The binding used for
//! the underlying call does not hand that remainder out, so it is computed
//! here, verified, from two readings of the same clock taken around the
//! sleep.

use vstd::arithmetic::div_mod::lemma_div_is_ordered;
use vstd::arithmetic::div_mod::lemma_fundamental_div_mod;
use vstd::arithmetic::div_mod::lemma_fundamental_div_mod_converse;
use vstd::arithmetic::div_mod::lemma_mod_bound;
use vstd::prelude::*;

use crate::sys::sys_clock_gettime;
use crate::sys::sys_clock_nanosleep;
use crate::types::sleepable_clock;
use crate::types::ClockId;
use crate::types::Errno;
use crate::types::NanosleepRelativeResult;
use crate::types::Timespec;
use crate::types::EINTR_CODE;
use crate::types::NANOS_PER_SEC;

verus! {

/// A difference of time values, floored at zero.
pub open spec fn clamp0(x: int) -> int {
    if x < 0 {
        0
    } else {
        x
    }
}

/// The duration of a requested sleep still untaken after the time between
/// the clock readings `before` and `after` has elapsed: the request minus
/// the elapsed time, floored at zero. The elapsed time itself is floored at
/// zero, so a clock that moved backwards between the readings never
/// lengthens the remainder beyond the request.
pub fn remaining_duration(request: &Timespec, before: &Timespec, after: &Timespec) -> (rem:
    Timespec)
    requires
        request.is_duration(),
        before.nsec_in_range(),
        after.nsec_in_range(),
    ensures
        rem.is_duration(),
        rem.total_ns() == clamp0(
            request.total_ns() - clamp0(after.total_ns() - before.total_ns()),
        ),
        rem.total_ns() <= request.total_ns(),
{
    let req_total: i128 = (request.tv_sec as i128) * (NANOS_PER_SEC as i128) + (request.tv_nsec as i128);
    let t0: i128 = (before.tv_sec as i128) * (NANOS_PER_SEC as i128) + (before.tv_nsec as i128);
    let t1: i128 = (after.tv_sec as i128) * (NANOS_PER_SEC as i128) + (after.tv_nsec as i128);
    let elapsed: i128 = if t1 > t0 {
        t1 - t0
    } else {
        0
    };
    let remain: i128 = if elapsed >= req_total {
        0
    } else {
        req_total - elapsed
    };
    let remain_u: u128 = remain as u128;
    let sec: u128 = remain_u / (NANOS_PER_SEC as u128);
    let nsec: u128 = remain_u % (NANOS_PER_SEC as u128);
    proof {
        lemma_fundamental_div_mod(remain_u as int, NANOS_PER_SEC as int);
        lemma_mod_bound(remain_u as int, NANOS_PER_SEC as int);
        lemma_div_is_ordered(remain_u as int, req_total as int, NANOS_PER_SEC as int);
        lemma_fundamental_div_mod_converse(
            req_total as int,
            NANOS_PER_SEC as int,
            request.tv_sec as int,
            request.tv_nsec as int,
        );
    }
    Timespec { tv_sec: sec as i64, tv_nsec: nsec as i64 }
}

/// The remainder reported for an interrupted sleep, selected from the
/// request and the readings of the sleep's clock taken before and after the
/// sleep: where the request and both readings are usable, the difference
/// computed by [`remaining_duration`]; where either reading failed, the
/// full request; and for a request that is not a well-formed duration
/// (which the OS rejects rather than interrupts), the zero duration.
pub fn interrupted_remainder(
    request: &Timespec,
    before: &Result<Timespec, Errno>,
    after: &Result<Timespec, Errno>,
) -> (rem: Timespec)
    requires
        before matches Ok(t) ==> t.nsec_in_range(),
        after matches Ok(t) ==> t.nsec_in_range(),
    ensures
        !request.is_duration() ==> rem == (Timespec { tv_sec: 0, tv_nsec: 0 }),
        request.is_duration() && before is Ok && after is Ok ==> rem.total_ns() == clamp0(
            request.total_ns() - clamp0((after->Ok_0).total_ns() - (before->Ok_0).total_ns()),
        ),
        request.is_duration() && (before is Err || after is Err) ==> rem == *request,
        rem.is_duration(),
        request.is_duration() ==> rem.total_ns() <= request.total_ns(),
{
    if !request.check_is_duration() {
        Timespec::zero()
    } else {
        match (before, after) {
            (Ok(t0), Ok(t1)) => remaining_duration(request, t0, t1),
            _ => *request,
        }
    }
}

/// Sleeps for the requested duration, measured against the given clock.
/// Completes, or reports interruption by a signal together with the
/// duration still untaken — selected by [`interrupted_remainder`] from the
/// readings of the same clock taken around the sleep, a well-formed
/// duration no longer than the request — or fails with the error the OS
/// reported, which is never the interruption code. A zero request on a
/// clock that supports sleeping completes at once, reporting no remainder.
pub fn clock_nanosleep_relative(id: ClockId, request: &Timespec) -> (r: NanosleepRelativeResult)
    ensures
        r matches NanosleepRelativeResult::Interrupted(rem) ==> rem.is_duration() && (
        request.is_duration() ==> rem.total_ns() <= request.total_ns()),
        r matches NanosleepRelativeResult::Failed(e) ==> e.code >= 0 && e.code != EINTR_CODE,
        request.tv_sec == 0 && request.tv_nsec == 0 && sleepable_clock(id.spec_raw()) ==> r
            == NanosleepRelativeResult::Completed,
{
    let raw_id = id.as_raw();
    let before = sys_clock_gettime(raw_id);
    match sys_clock_nanosleep(raw_id, false, request) {
        Ok(_) => NanosleepRelativeResult::Completed,
        Err(code) => {
            if code == EINTR_CODE {
                let after = sys_clock_gettime(raw_id);
                NanosleepRelativeResult::Interrupted(
                    interrupted_remainder(request, &before, &after),
                )
            } else {
                NanosleepRelativeResult::Failed(Errno { code })
            }
        },
    }
}

/// Sleeps until the given clock reads the requested time. A target already
/// in the past means the sleep returns at once. Succeeds or fails with the
/// error the OS reported; unlike a relative sleep, no remainder is reported,
/// so interruption by a signal surfaces as the interruption error code.
pub fn clock_nanosleep_absolute(id: ClockId, request: &Timespec) -> (r: Result<(), Errno>)
    ensures
        r matches Err(e) ==> e.code >= 0,
{
    match sys_clock_nanosleep(id.as_raw(), true, request) {
        Ok(_) => Ok(()),
        Err(code) => Err(Errno { code }),
    }
}

/// Sleeps for the requested duration on the platform's default sleep clock
/// — the steady clock that relative sleeps without a clock selector are
/// measured against — with the same three outcomes as
/// [`clock_nanosleep_relative`]. A zero request completes at once,
/// reporting no remainder.
pub fn nanosleep(request: &Timespec) -> (r: NanosleepRelativeResult)
    ensures
        r matches NanosleepRelativeResult::Interrupted(rem) ==> rem.is_duration() && (
        request.is_duration() ==> rem.total_ns() <= request.total_ns()),
        r matches NanosleepRelativeResult::Failed(e) ==> e.code >= 0 && e.code != EINTR_CODE,
        request.tv_sec == 0 && request.tv_nsec == 0 ==> r == NanosleepRelativeResult::Completed,
{
    clock_nanosleep_relative(ClockId::Monotonic, request)
}

} // verus!
