use atomus_ai_agent::clock::CalendarMonth;
use atomus_ai_agent::rate_limiter::{QuotaExceeded, QuotaKind, RateLimiter};

fn may_2024() -> CalendarMonth {
    CalendarMonth { year: 2024, month: 5 }
}

#[test]
fn fresh_limiter_has_full_quota() {
    let limiter = RateLimiter::with_window(100, 500, may_2024());
    assert_eq!(limiter.get_remaining_reads(), 100);
    assert_eq!(limiter.get_remaining_writes(), 500);
}

#[test]
fn limiter_from_clock_has_full_quota_and_passes_gate() {
    let mut limiter = RateLimiter::new(7, 9);
    assert_eq!(limiter.get_remaining_reads(), 7);
    assert_eq!(limiter.get_remaining_writes(), 9);
    assert_eq!(limiter.check_and_update_limits(), Ok(()));
    assert_eq!(limiter.get_remaining_reads(), 7);
}

#[test]
fn remaining_reads_follow_each_increment() {
    let ceiling = 25u32;
    let mut limiter = RateLimiter::with_window(ceiling, 3, may_2024());
    for count in 0..=ceiling {
        assert_eq!(limiter.get_remaining_reads(), ceiling - count);
        let verdict = limiter.check_and_update_limits_at(may_2024());
        assert_eq!(verdict.is_err(), count >= ceiling);
        if count < ceiling {
            limiter.increment_read();
        }
    }
}

#[test]
fn two_reads_use_up_a_ceiling_of_two() {
    let mut limiter = RateLimiter::with_window(2, 10, may_2024());
    assert_eq!(limiter.check_and_update_limits_at(may_2024()), Ok(()));
    limiter.increment_read();
    assert_eq!(limiter.check_and_update_limits_at(may_2024()), Ok(()));
    limiter.increment_read();
    assert_eq!(limiter.get_remaining_reads(), 0);
    assert_eq!(
        limiter.check_and_update_limits_at(may_2024()),
        Err(QuotaExceeded { kind: QuotaKind::Read })
    );
}

#[test]
fn next_month_resets_counts_before_the_gate() {
    let mut limiter = RateLimiter::with_window(2, 2, may_2024());
    limiter.increment_read();
    limiter.increment_read();
    limiter.increment_write();
    assert!(limiter.check_and_update_limits_at(may_2024()).is_err());
    let june = CalendarMonth { year: 2024, month: 6 };
    assert_eq!(limiter.check_and_update_limits_at(june), Ok(()));
    assert_eq!(limiter.get_remaining_reads(), 2);
    assert_eq!(limiter.get_remaining_writes(), 2);
    limiter.increment_read();
    assert_eq!(limiter.check_and_update_limits_at(june), Ok(()));
    assert_eq!(limiter.get_remaining_reads(), 1);
}

#[test]
fn same_month_of_a_later_year_resets_counts() {
    let mut limiter = RateLimiter::with_window(1, 1, may_2024());
    limiter.increment_read();
    limiter.increment_write();
    let may_2025 = CalendarMonth { year: 2025, month: 5 };
    assert_eq!(limiter.check_and_update_limits_at(may_2025), Ok(()));
    assert_eq!(limiter.get_remaining_reads(), 1);
    assert_eq!(limiter.get_remaining_writes(), 1);
}

#[test]
fn rollover_does_not_open_a_ceiling_of_zero() {
    let mut limiter = RateLimiter::with_window(0, 5, may_2024());
    let june = CalendarMonth { year: 2024, month: 6 };
    assert_eq!(
        limiter.check_and_update_limits_at(june),
        Err(QuotaExceeded { kind: QuotaKind::Read })
    );
}

#[test]
fn gate_looks_at_reads_only() {
    let mut limiter = RateLimiter::with_window(5, 1, may_2024());
    limiter.increment_write();
    assert_eq!(limiter.get_remaining_writes(), 0);
    assert_eq!(limiter.check_and_update_limits_at(may_2024()), Ok(()));
    assert_eq!(
        limiter.check_write_limit(),
        Err(QuotaExceeded { kind: QuotaKind::Write })
    );
}

#[test]
fn write_gate_opens_below_the_ceiling() {
    let mut limiter = RateLimiter::with_window(5, 2, may_2024());
    assert_eq!(limiter.check_write_limit(), Ok(()));
    limiter.increment_write();
    assert_eq!(limiter.check_write_limit(), Ok(()));
    assert_eq!(limiter.get_remaining_writes(), 1);
    assert_eq!(limiter.get_remaining_reads(), 5);
}

#[test]
fn remaining_is_zero_once_the_count_passes_the_ceiling() {
    let mut limiter = RateLimiter::with_window(1, 1, may_2024());
    limiter.increment_read();
    limiter.increment_read();
    limiter.increment_write();
    limiter.increment_write();
    limiter.increment_write();
    assert_eq!(limiter.get_remaining_reads(), 0);
    assert_eq!(limiter.get_remaining_writes(), 0);
}

#[test]
fn refusal_names_its_side_in_words() {
    assert_eq!(
        QuotaExceeded { kind: QuotaKind::Read }.message(),
        "Monthly read limit exceeded"
    );
    assert_eq!(
        QuotaExceeded { kind: QuotaKind::Write }.message(),
        "Monthly write limit exceeded"
    );
}
