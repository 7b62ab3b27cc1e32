use std::time::Duration;

use aisstream_rs::{AISStreamReconnectStrategy, ExponentialBackoff};

#[test]
fn backoff_doubles_until_max() {
    let mut strategy = ExponentialBackoff::new(Duration::from_secs(1), Duration::from_secs(4));

    assert_eq!(strategy.next_delay(), Duration::from_secs(1));
    assert_eq!(strategy.next_delay(), Duration::from_secs(2));
    assert_eq!(strategy.next_delay(), Duration::from_secs(4));
    assert_eq!(strategy.next_delay(), Duration::from_secs(4));
}

#[test]
fn reset_starts_over() {
    let mut strategy = ExponentialBackoff::default();
    let _ = strategy.next_delay();
    let _ = strategy.next_delay();
    strategy.reset();
    assert_eq!(strategy.next_delay(), Duration::from_secs(1));
}

#[test]
fn default_backoff_runs_from_one_to_thirty_seconds() {
    let mut strategy = ExponentialBackoff::default();
    let expected = [1, 2, 4, 8, 16, 30, 30, 30];
    for secs in expected {
        assert_eq!(strategy.next_delay(), Duration::from_secs(secs));
    }
}

#[test]
fn delays_stay_capped_after_many_attempts() {
    let mut strategy = ExponentialBackoff::new(Duration::from_millis(1500), Duration::from_secs(60));
    let mut previous = Duration::ZERO;
    for _ in 0..200 {
        let delay = strategy.next_delay();
        assert!(delay >= previous);
        assert!(delay <= Duration::from_secs(60));
        previous = delay;
    }
    assert_eq!(previous, Duration::from_secs(60));
}

#[test]
fn base_above_max_is_capped_from_the_start() {
    let mut strategy = ExponentialBackoff::new(Duration::from_secs(10), Duration::from_secs(3));
    assert_eq!(strategy.next_delay(), Duration::from_secs(3));
    assert_eq!(strategy.next_delay(), Duration::from_secs(3));
}

#[test]
fn zero_base_never_waits() {
    let mut strategy = ExponentialBackoff::new(Duration::ZERO, Duration::from_secs(30));
    for _ in 0..100 {
        assert_eq!(strategy.next_delay(), Duration::ZERO);
    }
}

#[test]
fn sub_millisecond_parts_are_dropped() {
    let mut strategy =
        ExponentialBackoff::new(Duration::from_micros(2500), Duration::from_secs(1));
    assert_eq!(strategy.next_delay(), Duration::from_millis(2));
    assert_eq!(strategy.next_delay(), Duration::from_millis(4));
}

#[test]
fn reset_after_cap_restarts_from_base() {
    let mut strategy = ExponentialBackoff::new(Duration::from_millis(250), Duration::from_secs(1));
    for _ in 0..10 {
        let _ = strategy.next_delay();
    }
    assert_eq!(strategy.next_delay(), Duration::from_secs(1));
    strategy.reset();
    assert_eq!(strategy.next_delay(), Duration::from_millis(250));
    assert_eq!(strategy.next_delay(), Duration::from_millis(500));
}

#[test]
fn backoff_keeps_the_given_durations() {
    let strategy = ExponentialBackoff::new(Duration::from_micros(2500), Duration::from_secs(9));
    assert_eq!(
        format!("{strategy:?}"),
        "ExponentialBackoff { attempt: 0, base: 2.5ms, max: 9s }"
    );
    assert_eq!(
        format!("{:?}", ExponentialBackoff::default()),
        "ExponentialBackoff { attempt: 0, base: 1s, max: 30s }"
    );
}
