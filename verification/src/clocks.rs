//! Reading clocks: resolution queries, time queries on a fixed clock, and
//! time queries on a runtime-selected (dynamic) clock.

use vstd::prelude::*;

use crate::sys::sys_clock_getres;
use crate::sys::sys_clock_gettime;
use crate::types::ClockId;
use crate::types::DynamicClockId;
use crate::types::Errno;
use crate::types::Platform;
use crate::types::Timespec;
use crate::types::EINVAL_CODE;

verus! {

/// Marks a clock identifier as referring to an open file descriptor rather
/// than a fixed clock. Linux ABI value, as the kernel defines it.
pub const CLOCKFD: i32 = 3;

/// Raw identifier of the wall clock that also wakes a suspended system.
/// Linux ABI value of `CLOCK_REALTIME_ALARM`, as `<time.h>` defines it.
pub const CLOCK_REALTIME_ALARM_RAW: i32 = 8;

/// Raw identifier of the boot-time clock that also wakes a suspended
/// system. Linux ABI value of `CLOCK_BOOTTIME_ALARM`, as `<time.h>` defines
/// it.
pub const CLOCK_BOOTTIME_ALARM_RAW: i32 = 9;

/// Raw identifier of the boot-time clock. Linux ABI value of
/// `CLOCK_BOOTTIME`, as `<time.h>` defines it.
pub const CLOCK_BOOTTIME_RAW: i32 = 7;

/// Raw identifier of the International Atomic Time clock. Linux ABI value
/// of `CLOCK_TAI`, as `<time.h>` defines it.
pub const CLOCK_TAI_RAW: i32 = 11;

/// The raw clock identifier that selects the clock behind the open file
/// descriptor `fd`: the descriptor's bits, inverted, shifted left by three,
/// with the low bits marking the identifier as descriptor-bound. This
/// shift-and-mask packing is the Linux ABI's encoding of dynamic clocks.
pub open spec fn spec_fd_clock_id(fd: i32) -> i32 {
    ((!fd) << 3) | CLOCKFD
}

/// Packs an open file descriptor into the raw clock identifier that selects
/// the clock behind it.
pub fn fd_clock_id(fd: i32) -> (r: i32)
    ensures
        r == spec_fd_clock_id(fd),
{
    ((!fd) << 3) | CLOCKFD
}

/// The raw clock identifier a dynamic clock selector resolves to on the
/// given platform, or the invalid-argument error for the selectors the
/// platform does not provide. A fixed, well-known clock always resolves;
/// every other selector resolves only where the platform provides dynamic
/// clocks.
pub open spec fn spec_resolve_clock_id(id: DynamicClockId, platform: Platform) -> Result<
    i32,
    Errno,
> {
    match id {
        DynamicClockId::Known(c) => Ok(c.spec_raw()),
        DynamicClockId::Dynamic(fd) => if platform.dynamic_clocks {
            Ok(spec_fd_clock_id(fd))
        } else {
            Err(Errno { code: EINVAL_CODE })
        },
        DynamicClockId::RealtimeAlarm => if platform.dynamic_clocks {
            Ok(CLOCK_REALTIME_ALARM_RAW)
        } else {
            Err(Errno { code: EINVAL_CODE })
        },
        DynamicClockId::Tai => if platform.dynamic_clocks {
            Ok(CLOCK_TAI_RAW)
        } else {
            Err(Errno { code: EINVAL_CODE })
        },
        DynamicClockId::Boottime => if platform.dynamic_clocks {
            Ok(CLOCK_BOOTTIME_RAW)
        } else {
            Err(Errno { code: EINVAL_CODE })
        },
        DynamicClockId::BoottimeAlarm => if platform.dynamic_clocks {
            Ok(CLOCK_BOOTTIME_ALARM_RAW)
        } else {
            Err(Errno { code: EINVAL_CODE })
        },
    }
}

/// Resolves a dynamic clock selector to the raw clock identifier it stands
/// for on the given platform. Selectors the platform does not provide are
/// rejected with the invalid-argument error; no call reaches the OS from
/// here.
pub fn resolve_clock_id(id: &DynamicClockId, platform: &Platform) -> (r: Result<i32, Errno>)
    ensures
        r == spec_resolve_clock_id(*id, *platform),
        !platform.dynamic_clocks && !(*id is Known) ==> r == Err::<i32, Errno>(
            Errno { code: EINVAL_CODE },
        ),
{
    match *id {
        DynamicClockId::Known(c) => Ok(c.as_raw()),
        DynamicClockId::Dynamic(fd) => if platform.dynamic_clocks {
            Ok(fd_clock_id(fd))
        } else {
            Err(Errno::invalid_argument())
        },
        DynamicClockId::RealtimeAlarm => if platform.dynamic_clocks {
            Ok(CLOCK_REALTIME_ALARM_RAW)
        } else {
            Err(Errno::invalid_argument())
        },
        DynamicClockId::Tai => if platform.dynamic_clocks {
            Ok(CLOCK_TAI_RAW)
        } else {
            Err(Errno::invalid_argument())
        },
        DynamicClockId::Boottime => if platform.dynamic_clocks {
            Ok(CLOCK_BOOTTIME_RAW)
        } else {
            Err(Errno::invalid_argument())
        },
        DynamicClockId::BoottimeAlarm => if platform.dynamic_clocks {
            Ok(CLOCK_BOOTTIME_ALARM_RAW)
        } else {
            Err(Errno::invalid_argument())
        },
    }
}

/// Law: a selector beyond the fixed, well-known clocks, requested on a
/// platform without dynamic clocks, always resolves to the invalid-argument
/// error. The rejection is the resolver's own — [`resolve_clock_id`] and
/// [`clock_gettime_dynamic`] return it before any call could reach the OS.
pub proof fn lemma_unsupported_selector_is_invalid_argument(
    id: DynamicClockId,
    platform: Platform,
)
    requires
        !platform.dynamic_clocks,
        !(id is Known),
    ensures
        spec_resolve_clock_id(id, platform) == Err::<i32, Errno>(Errno { code: EINVAL_CODE }),
{
}

/// Queries the resolution of a fixed, well-known clock. On success the
/// resolution is a well-formed, non-negative duration. A failure would mean
/// a broken clock subsystem; it is propagated rather than aborting, so the
/// caller decides.
pub fn clock_getres(id: ClockId) -> (r: Result<Timespec, Errno>)
    ensures
        r matches Ok(t) ==> t.is_duration(),
{
    sys_clock_getres(id.as_raw())
}

/// Reads the current time of a fixed, well-known clock. On success the
/// nanosecond field is normalized to `[0, 1_000_000_000)`. A failure would
/// mean a broken clock subsystem; it is propagated rather than aborting, so
/// the caller decides.
pub fn clock_gettime(id: ClockId) -> (r: Result<Timespec, Errno>)
    ensures
        r matches Ok(t) ==> t.nsec_in_range(),
{
    sys_clock_gettime(id.as_raw())
}

/// Reads the current time of a runtime-selected clock. A selector the
/// platform does not provide is rejected with the invalid-argument error
/// without any call reaching the OS; otherwise the resolved clock is read,
/// and on success the nanosecond field is normalized.
pub fn clock_gettime_dynamic(id: &DynamicClockId, platform: &Platform) -> (r: Result<
    Timespec,
    Errno,
>)
    ensures
        spec_resolve_clock_id(*id, *platform) matches Err(e) ==> r == Err::<Timespec, Errno>(e),
        !platform.dynamic_clocks && !(*id is Known) ==> r == Err::<Timespec, Errno>(
            Errno { code: EINVAL_CODE },
        ),
        r matches Ok(t) ==> t.nsec_in_range(),
{
    match resolve_clock_id(id, platform) {
        Ok(raw) => sys_clock_gettime(raw),
        Err(e) => Err(e),
    }
}

} // verus!
