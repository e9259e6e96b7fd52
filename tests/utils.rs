use dns_proxy::utils::backoff::backoff_delay_ms;
use dns_proxy::utils::{exponential_backoff, BackoffCounter};
use std::time::Duration;

// The delay doubles with each attempt: `min(base * 2^min(attempt, 10), max)`.

#[test]
fn test_exponential_backoff_attempt_0() {
    let delay = exponential_backoff(0, 100, 10000);
    assert_eq!(delay, Duration::from_millis(100));
}

#[test]
fn test_exponential_backoff_attempt_1() {
    let delay = exponential_backoff(1, 100, 10000);
    assert_eq!(delay, Duration::from_millis(200));
}

#[test]
fn test_exponential_backoff_attempt_2() {
    let delay = exponential_backoff(2, 100, 10000);
    assert_eq!(delay, Duration::from_millis(400));
}

#[test]
fn test_exponential_backoff_attempt_3() {
    let delay = exponential_backoff(3, 100, 10000);
    assert_eq!(delay, Duration::from_millis(800));
}

#[test]
fn test_exponential_backoff_max_delay() {
    let delay = exponential_backoff(20, 100, 1000);
    assert_eq!(delay, Duration::from_millis(1000));
}

#[test]
fn test_exponential_backoff_cap_at_10() {
    // Capped at 2^10 * base = 102400, then limited by the maximum.
    let delay = exponential_backoff(15, 100, 100000);
    assert!(delay <= Duration::from_millis(100000));
    assert_eq!(exponential_backoff(15, 1, u64::MAX), Duration::from_millis(1024));
}

#[test]
fn test_backoff_counter_new() {
    let mut counter = BackoffCounter::new();
    let delay = counter.next_delay(100, 10000);
    assert_eq!(delay, Duration::from_millis(100));
}

#[test]
fn test_backoff_counter_sequence() {
    let mut counter = BackoffCounter::new();
    let delay1 = counter.next_delay(100, 10000);
    assert_eq!(delay1, Duration::from_millis(100));
    let delay2 = counter.next_delay(100, 10000);
    assert_eq!(delay2, Duration::from_millis(200));
    let delay3 = counter.next_delay(100, 10000);
    assert_eq!(delay3, Duration::from_millis(400));
}

#[test]
fn test_backoff_counter_reset_after_10() {
    let mut counter = BackoffCounter::new();
    // Attempts 0 to 9.
    for _ in 0..10 {
        let _ = counter.next_delay(100, 10000);
    }
    // Attempt 10 uses the capped exponent, and starts the count over.
    let delay = counter.next_delay(100, 10000);
    assert_eq!(delay, Duration::from_millis(10000));
    let delay = counter.next_delay(100, 10000);
    assert_eq!(delay, Duration::from_millis(100));
}

#[test]
fn test_backoff_counter_default() {
    let mut counter = BackoffCounter::default();
    let delay = counter.next_delay(100, 10000);
    assert_eq!(delay, Duration::from_millis(100));
}

#[test]
fn test_accept_error_delay_schedule() {
    let mut counter = BackoffCounter::new();
    let expected: [u64; 13] = [
        100, 200, 400, 800, 1600, 3200, 5000, 5000, 5000, 5000, 5000, 100, 200,
    ];
    for ms in expected {
        assert_eq!(counter.next_delay(100, 5000), Duration::from_millis(ms));
    }
}

#[test]
fn test_backoff_delay_saturates() {
    assert_eq!(backoff_delay_ms(10, u64::MAX, u64::MAX), u64::MAX);
    assert_eq!(backoff_delay_ms(3, 0, 5000), 0);
    assert_eq!(backoff_delay_ms(4, 100, 0), 0);
}
