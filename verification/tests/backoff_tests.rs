use atomus_ai_agent::backoff::{
    backoff_with_jitter, calculate_backoff, draw_jitter, exponential_delay_secs, BASE_DELAY,
    MAX_DOUBLINGS, MAX_JITTER,
};

#[test]
fn exponential_term_doubles_from_the_base() {
    assert_eq!(BASE_DELAY, 15);
    assert_eq!(exponential_delay_secs(0), 15);
    assert_eq!(exponential_delay_secs(1), 30);
    assert_eq!(exponential_delay_secs(2), 60);
    assert_eq!(exponential_delay_secs(3), 120);
    assert_eq!(exponential_delay_secs(10), 15_360);
}

#[test]
fn exponential_term_stops_doubling_at_the_last_that_fits() {
    let top = 15u64 << 60;
    assert_eq!(MAX_DOUBLINGS, 60);
    assert_eq!(exponential_delay_secs(59), top / 2);
    assert_eq!(exponential_delay_secs(60), top);
    assert_eq!(exponential_delay_secs(61), top);
    assert_eq!(exponential_delay_secs(u32::MAX), top);
    assert!(top.checked_add(MAX_JITTER).is_some());
    assert!(top.checked_mul(2).is_none());
}

#[test]
fn exponential_term_never_shrinks() {
    for n in 0..200u32 {
        assert!(exponential_delay_secs(n + 1) >= exponential_delay_secs(n));
        if n < MAX_DOUBLINGS {
            assert_eq!(exponential_delay_secs(n + 1), 2 * exponential_delay_secs(n));
        }
    }
}

#[test]
fn jitter_is_added_to_the_exponential_term() {
    assert_eq!(MAX_JITTER, 3);
    assert_eq!(backoff_with_jitter(0, 0), 15);
    assert_eq!(backoff_with_jitter(0, 3), 18);
    assert_eq!(backoff_with_jitter(2, 1), 61);
    assert_eq!(backoff_with_jitter(4, 2), 242);
    assert_eq!(backoff_with_jitter(200, 3), (15u64 << 60) + 3);
}

#[test]
fn drawn_backoff_stays_within_the_jitter() {
    for retries in 0..8u32 {
        for _ in 0..50 {
            let secs = calculate_backoff(retries);
            let base = 15u64 << retries;
            assert!(base <= secs && secs <= base + MAX_JITTER);
        }
    }
}

#[test]
fn drawn_jitter_varies() {
    let first = calculate_backoff(0);
    let mut varied = false;
    for _ in 0..400 {
        if calculate_backoff(0) != first {
            varied = true;
        }
    }
    assert!(varied);
}

#[test]
fn drawn_jitter_is_at_most_a_fifth_of_the_base() {
    assert_eq!(MAX_JITTER, BASE_DELAY / 5);
    let mut seen = [false; 4];
    for _ in 0..2000 {
        let jitter = draw_jitter();
        assert!(jitter <= MAX_JITTER);
        seen[jitter as usize] = true;
    }
    assert_eq!(seen, [true; 4]);
}
