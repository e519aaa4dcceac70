use atomus_ai_agent::clock::CalendarMonth;
use atomus_ai_agent::rate_limiter::{QuotaExceeded, QuotaKind, RateLimiter};
use atomus_ai_agent::retry::{classify_error, FailureKind, RetryAttempt, RetryError, RetryStep};

fn july() -> CalendarMonth {
    CalendarMonth { year: 2025, month: 7 }
}

/// Drives an operation that always fails with `failure` and counts its
/// invocations.
fn run_always_failing(
    limiter: &mut RateLimiter,
    kind: QuotaKind,
    max_attempts: u32,
    failure: FailureKind,
) -> (u32, Vec<u64>, RetryError<String>) {
    let mut invocations = 0u32;
    let mut delays = Vec::new();
    let mut attempt = match RetryAttempt::begin_at::<String>(limiter, kind, max_attempts, july()) {
        Ok(attempt) => attempt,
        Err(e) => return (invocations, delays, e),
    };
    loop {
        assert_eq!(attempt.attempt_number(), invocations);
        invocations += 1;
        let error = format!("failure {}", invocations);
        match attempt.on_failure_with_jitter(failure, error, 0) {
            RetryStep::Retry { next, delay_secs } => {
                delays.push(delay_secs);
                attempt = next;
            }
            RetryStep::GiveUp(e) => return (invocations, delays, e),
        }
    }
}

#[test]
fn three_attempts_mean_three_invocations() {
    let mut limiter = RateLimiter::with_window(10, 10, july());
    let (invocations, delays, error) =
        run_always_failing(&mut limiter, QuotaKind::Read, 3, FailureKind::Transient);
    assert_eq!(invocations, 3);
    assert_eq!(delays, vec![15, 30]);
    match error {
        RetryError::MaxRetriesExceeded { attempts, last_error } => {
            assert_eq!(attempts, 3);
            assert_eq!(last_error, Some("failure 3".to_string()));
        }
        other => panic!("unexpected {:?}", other),
    }
    assert_eq!(limiter.get_remaining_reads(), 10);
    assert_eq!(limiter.get_remaining_writes(), 10);
}

#[test]
fn no_attempts_mean_no_invocation() {
    let mut limiter = RateLimiter::with_window(10, 10, july());
    let (invocations, delays, error) =
        run_always_failing(&mut limiter, QuotaKind::Read, 0, FailureKind::Transient);
    assert_eq!(invocations, 0);
    assert!(delays.is_empty());
    assert!(matches!(
        error,
        RetryError::MaxRetriesExceeded { attempts: 0, last_error: None }
    ));
}

#[test]
fn every_budget_is_spent_exactly() {
    for max_attempts in 1..12u32 {
        let mut limiter = RateLimiter::with_window(10, 10, july());
        let (invocations, delays, error) =
            run_always_failing(&mut limiter, QuotaKind::Write, max_attempts, FailureKind::RateLimited);
        assert_eq!(invocations, max_attempts);
        assert_eq!(delays.len() as u32, max_attempts - 1);
        for (n, delay) in delays.iter().enumerate() {
            assert_eq!(*delay, 15u64 << n);
        }
        assert!(matches!(error, RetryError::MaxRetriesExceeded { .. }));
    }
}

#[test]
fn single_attempt_is_not_retried() {
    let mut limiter = RateLimiter::with_window(10, 10, july());
    let attempt = RetryAttempt::begin_at::<u8>(&mut limiter, QuotaKind::Read, 1, july()).unwrap();
    match attempt.on_failure_with_jitter(FailureKind::Transient, 42u8, 3) {
        RetryStep::GiveUp(RetryError::MaxRetriesExceeded { attempts, last_error }) => {
            assert_eq!(attempts, 1);
            assert_eq!(last_error, Some(42));
        }
        other => panic!("unexpected {:?}", other),
    }
}

#[test]
fn signing_failure_is_never_retried() {
    let mut limiter = RateLimiter::with_window(10, 10, july());
    let (invocations, delays, error) =
        run_always_failing(&mut limiter, QuotaKind::Read, 5, FailureKind::Signing);
    assert_eq!(invocations, 1);
    assert!(delays.is_empty());
    match error {
        RetryError::Signing(e) => assert_eq!(e, "failure 1"),
        other => panic!("unexpected {:?}", other),
    }
}

#[test]
fn exhausted_reads_refuse_before_any_invocation() {
    let mut limiter = RateLimiter::with_window(1, 10, july());
    limiter.increment_read();
    let (invocations, _, error) =
        run_always_failing(&mut limiter, QuotaKind::Read, 3, FailureKind::Transient);
    assert_eq!(invocations, 0);
    assert!(matches!(
        error,
        RetryError::QuotaExceeded(QuotaExceeded { kind: QuotaKind::Read })
    ));
}

#[test]
fn exhausted_reads_refuse_a_write_too() {
    let mut limiter = RateLimiter::with_window(0, 10, july());
    let admitted = RetryAttempt::begin_at::<u8>(&mut limiter, QuotaKind::Write, 3, july());
    assert!(matches!(
        admitted,
        Err(RetryError::QuotaExceeded(QuotaExceeded { kind: QuotaKind::Read }))
    ));
}

#[test]
fn exhausted_writes_refuse_a_write_but_not_a_read() {
    let mut limiter = RateLimiter::with_window(10, 1, july());
    limiter.increment_write();
    let write = RetryAttempt::begin_at::<u8>(&mut limiter, QuotaKind::Write, 3, july());
    assert!(matches!(
        write,
        Err(RetryError::QuotaExceeded(QuotaExceeded { kind: QuotaKind::Write }))
    ));
    let read = RetryAttempt::begin_at::<u8>(&mut limiter, QuotaKind::Read, 3, july());
    assert!(read.is_ok());
}

#[test]
fn quota_refusal_comes_before_an_empty_budget() {
    let mut limiter = RateLimiter::with_window(0, 0, july());
    let admitted = RetryAttempt::begin_at::<u8>(&mut limiter, QuotaKind::Read, 0, july());
    assert!(matches!(admitted, Err(RetryError::QuotaExceeded(_))));
}

#[test]
fn admission_rolls_the_window_over() {
    let mut limiter = RateLimiter::with_window(1, 1, CalendarMonth { year: 2025, month: 6 });
    limiter.increment_read();
    limiter.increment_write();
    let admitted = RetryAttempt::begin_at::<u8>(&mut limiter, QuotaKind::Write, 2, july());
    assert!(admitted.is_ok());
    assert_eq!(limiter.get_remaining_reads(), 1);
    assert_eq!(limiter.get_remaining_writes(), 1);
}

#[test]
fn admission_by_the_clock_admits_within_quota() {
    let mut limiter = RateLimiter::new(4, 4);
    let attempt = RetryAttempt::begin::<u8>(&mut limiter, QuotaKind::Read, 2).unwrap();
    assert_eq!(attempt.attempt_number(), 0);
    assert_eq!(attempt.max_attempts(), 2);
    assert_eq!(attempt.kind(), QuotaKind::Read);
    assert_eq!(attempt.last_error(), None);
}

#[test]
fn success_is_counted_on_its_own_side() {
    let mut limiter = RateLimiter::with_window(5, 5, july());
    let read = RetryAttempt::begin_at::<u8>(&mut limiter, QuotaKind::Read, 3, july()).unwrap();
    read.on_success(&mut limiter);
    assert_eq!(limiter.get_remaining_reads(), 4);
    assert_eq!(limiter.get_remaining_writes(), 5);
    let write = RetryAttempt::begin_at::<u8>(&mut limiter, QuotaKind::Write, 3, july()).unwrap();
    write.on_success(&mut limiter);
    assert_eq!(limiter.get_remaining_reads(), 4);
    assert_eq!(limiter.get_remaining_writes(), 4);
}

#[test]
fn success_after_failures_is_counted_once() {
    let mut limiter = RateLimiter::with_window(5, 5, july());
    let first = RetryAttempt::begin_at::<u8>(&mut limiter, QuotaKind::Read, 3, july()).unwrap();
    let second = match first.on_failure_with_jitter(FailureKind::RateLimited, 1u8, 2) {
        RetryStep::Retry { next, delay_secs } => {
            assert_eq!(delay_secs, 17);
            next
        }
        other => panic!("unexpected {:?}", other),
    };
    assert_eq!(second.attempt_number(), 1);
    assert_eq!(second.last_error(), Some(FailureKind::RateLimited));
    assert_eq!(limiter.get_remaining_reads(), 5);
    second.on_success(&mut limiter);
    assert_eq!(limiter.get_remaining_reads(), 4);
}

#[test]
fn drawn_wait_stays_within_the_jitter() {
    let mut limiter = RateLimiter::with_window(5, 5, july());
    let first = RetryAttempt::begin_at::<u8>(&mut limiter, QuotaKind::Read, 4, july()).unwrap();
    let second = match first.on_failure(FailureKind::Transient, 1u8) {
        RetryStep::Retry { next, delay_secs } => {
            assert!((15..=18).contains(&delay_secs));
            next
        }
        other => panic!("unexpected {:?}", other),
    };
    match second.on_failure(FailureKind::Transient, 2u8) {
        RetryStep::Retry { next, delay_secs } => {
            assert!((30..=33).contains(&delay_secs));
            assert_eq!(next.attempt_number(), 2);
        }
        other => panic!("unexpected {:?}", other),
    }
    let other = RetryAttempt::begin_at::<u8>(&mut limiter, QuotaKind::Read, 4, july()).unwrap();
    assert!(matches!(
        other.on_failure(FailureKind::Signing, 3u8),
        RetryStep::GiveUp(RetryError::Signing(3))
    ));
}

#[test]
fn failure_kinds_say_whether_to_retry() {
    assert!(FailureKind::RateLimited.is_retryable());
    assert!(FailureKind::Transient.is_retryable());
    assert!(!FailureKind::Signing.is_retryable());
}

#[test]
fn status_429_in_the_text_means_rate_limited() {
    assert_eq!(
        classify_error("Failed to get tweet (status 429 Too Many Requests): {}"),
        FailureKind::RateLimited
    );
    assert_eq!(classify_error("429"), FailureKind::RateLimited);
    assert_eq!(classify_error("4429"), FailureKind::RateLimited);
    assert_eq!(classify_error("42429"), FailureKind::RateLimited);
    assert_eq!(classify_error("x4294"), FailureKind::RateLimited);
    assert_eq!(classify_error("h\u{e9}llo 429 w\u{f6}rld"), FailureKind::RateLimited);
}

#[test]
fn other_texts_mean_transient() {
    assert_eq!(classify_error(""), FailureKind::Transient);
    assert_eq!(classify_error("4"), FailureKind::Transient);
    assert_eq!(classify_error("42"), FailureKind::Transient);
    assert_eq!(classify_error("4 2 9"), FailureKind::Transient);
    assert_eq!(classify_error("4249"), FailureKind::Transient);
    assert_eq!(classify_error("924"), FailureKind::Transient);
    assert_eq!(
        classify_error("Failed to get tweet (status 503 Service Unavailable): down"),
        FailureKind::Transient
    );
    assert_eq!(classify_error("connection reset by peer"), FailureKind::Transient);
}

#[test]
fn successes_stop_at_the_ceiling() {
    let mut limiter = RateLimiter::with_window(3, 2, july());
    let mut reads = 0;
    while let Ok(attempt) = RetryAttempt::begin_at::<u8>(&mut limiter, QuotaKind::Read, 1, july()) {
        assert!(attempt.record_success(&mut limiter));
        reads += 1;
        assert!(reads <= 3);
    }
    assert_eq!(reads, 3);
    assert_eq!(limiter.read_count(), 3);
    assert_eq!(limiter.get_remaining_reads(), 0);

    let mut limiter = RateLimiter::with_window(5, 2, july());
    let mut writes = 0;
    while let Ok(attempt) = RetryAttempt::begin_at::<u8>(&mut limiter, QuotaKind::Write, 1, july()) {
        assert!(attempt.record_success(&mut limiter));
        writes += 1;
        assert!(writes <= 2);
    }
    assert_eq!(writes, 2);
    assert_eq!(limiter.write_count(), 2);
    assert_eq!(limiter.read_count(), 0);
}
