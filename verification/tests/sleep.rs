use clocktime::clock_gettime;
use clocktime::clock_nanosleep_absolute;
use clocktime::clock_nanosleep_relative;
use clocktime::interrupted_remainder;
use clocktime::nanosleep;
use clocktime::remaining_duration;
use clocktime::ClockId;
use clocktime::Errno;
use clocktime::NanosleepRelativeResult;
use clocktime::Timespec;

#[test]
fn zero_duration_relative_sleep_completes_without_remainder() {
    let zero = Timespec { tv_sec: 0, tv_nsec: 0 };
    assert_eq!(
        clock_nanosleep_relative(ClockId::Monotonic, &zero),
        NanosleepRelativeResult::Completed
    );
    assert_eq!(
        clock_nanosleep_relative(ClockId::Realtime, &zero),
        NanosleepRelativeResult::Completed
    );
    assert_eq!(
        clock_nanosleep_relative(ClockId::ProcessCPUTime, &zero),
        NanosleepRelativeResult::Completed
    );
    assert_eq!(nanosleep(&zero), NanosleepRelativeResult::Completed);
}

#[test]
fn sleeping_on_a_clock_without_sleep_support_fails() {
    // The OS rejects sleeps on the thread CPU-time clock even for a zero
    // request, and on the raw monotonic clock for any request.
    let zero = Timespec { tv_sec: 0, tv_nsec: 0 };
    match clock_nanosleep_relative(ClockId::ThreadCPUTime, &zero) {
        NanosleepRelativeResult::Failed(e) => assert_eq!(e.code, libc::EINVAL),
        other => panic!("expected a failure, got {:?}", other),
    }
    let short = Timespec { tv_sec: 0, tv_nsec: 1 };
    assert!(matches!(
        clock_nanosleep_relative(ClockId::MonotonicRaw, &short),
        NanosleepRelativeResult::Failed(_)
    ));
}

#[test]
fn short_relative_sleep_completes() {
    let short = Timespec { tv_sec: 0, tv_nsec: 1_000_000 };
    assert_eq!(
        clock_nanosleep_relative(ClockId::Monotonic, &short),
        NanosleepRelativeResult::Completed
    );
    assert_eq!(nanosleep(&short), NanosleepRelativeResult::Completed);
}

#[test]
fn relative_sleep_with_denormalized_nanoseconds_is_invalid_argument() {
    let bad = Timespec { tv_sec: 0, tv_nsec: 2_000_000_000 };
    match clock_nanosleep_relative(ClockId::Monotonic, &bad) {
        NanosleepRelativeResult::Failed(e) => assert_eq!(e.code, libc::EINVAL),
        other => panic!("expected an invalid-argument failure, got {:?}", other),
    }
}

#[test]
fn absolute_sleep_to_a_past_target_returns_at_once() {
    let epoch = Timespec { tv_sec: 0, tv_nsec: 0 };
    assert_eq!(clock_nanosleep_absolute(ClockId::Monotonic, &epoch), Ok(()));
    let now = clock_gettime(ClockId::Monotonic).unwrap();
    // By the time the sleep is issued, this target has already passed.
    assert_eq!(clock_nanosleep_absolute(ClockId::Monotonic, &now), Ok(()));
}

#[test]
fn absolute_sleep_with_denormalized_nanoseconds_is_invalid_argument() {
    let bad = Timespec { tv_sec: 0, tv_nsec: -1 };
    match clock_nanosleep_absolute(ClockId::Monotonic, &bad) {
        Err(e) => assert_eq!(e.code, libc::EINVAL),
        Ok(()) => panic!("expected an invalid-argument failure"),
    }
}

#[test]
fn remainder_is_the_request_minus_the_elapsed_time() {
    let request = Timespec { tv_sec: 1, tv_nsec: 0 };
    let before = Timespec { tv_sec: 10, tv_nsec: 0 };
    let after = Timespec { tv_sec: 10, tv_nsec: 400_000_000 };
    let rem = remaining_duration(&request, &before, &after);
    assert_eq!(rem, Timespec { tv_sec: 0, tv_nsec: 600_000_000 });
}

#[test]
fn remainder_crosses_the_seconds_boundary() {
    let request = Timespec { tv_sec: 2, tv_nsec: 100_000_000 };
    let before = Timespec { tv_sec: 5, tv_nsec: 900_000_000 };
    let after = Timespec { tv_sec: 6, tv_nsec: 200_000_000 };
    // Elapsed 0.3 s of a 2.1 s request: 1.8 s remain.
    let rem = remaining_duration(&request, &before, &after);
    assert_eq!(rem, Timespec { tv_sec: 1, tv_nsec: 800_000_000 });
}

#[test]
fn remainder_is_zero_once_the_request_has_elapsed() {
    let request = Timespec { tv_sec: 1, tv_nsec: 0 };
    let before = Timespec { tv_sec: 10, tv_nsec: 0 };
    let after = Timespec { tv_sec: 12, tv_nsec: 0 };
    let rem = remaining_duration(&request, &before, &after);
    assert_eq!(rem, Timespec { tv_sec: 0, tv_nsec: 0 });
}

#[test]
fn interrupted_remainder_is_selected_case_by_case() {
    let request = Timespec { tv_sec: 1, tv_nsec: 0 };
    let before: Result<Timespec, Errno> = Ok(Timespec { tv_sec: 10, tv_nsec: 0 });
    let after: Result<Timespec, Errno> = Ok(Timespec { tv_sec: 10, tv_nsec: 400_000_000 });
    let failed: Result<Timespec, Errno> = Err(Errno { code: libc::EIO });
    // Both readings usable: the request minus the elapsed time.
    assert_eq!(
        interrupted_remainder(&request, &before, &after),
        Timespec { tv_sec: 0, tv_nsec: 600_000_000 }
    );
    // A failed reading on either side: the full request.
    assert_eq!(interrupted_remainder(&request, &failed, &after), request);
    assert_eq!(interrupted_remainder(&request, &before, &failed), request);
    // A malformed request: the zero duration.
    let malformed = Timespec { tv_sec: -1, tv_nsec: 0 };
    assert_eq!(
        interrupted_remainder(&malformed, &before, &after),
        Timespec { tv_sec: 0, tv_nsec: 0 }
    );
}

#[test]
fn remainder_is_capped_at_the_request_when_the_clock_stepped_backwards() {
    let request = Timespec { tv_sec: 1, tv_nsec: 500_000_000 };
    let before = Timespec { tv_sec: 10, tv_nsec: 0 };
    let after = Timespec { tv_sec: 9, tv_nsec: 0 };
    let rem = remaining_duration(&request, &before, &after);
    assert_eq!(rem, request);
}
