//! Deterministic tests of the breaker state machine, driving the clock
//! explicitly through the `_at` entry points.

use crius::circuit_breaker::CircuitBreaker;
use crius::command::Config;

fn test_config() -> Config {
    *Config::new()
        .error_threshold(5)
        .error_threshold_percentage(50)
        .buckets_in_window(10)
        .bucket_size_in_ms(1000)
        .circuit_open_ms(5000)
}

fn register_failures(cb: &mut CircuitBreaker, now: u64, n: usize) {
    for _ in 0..n {
        cb.register_result_at::<(), ()>(now, &Err(()));
    }
}

#[test]
fn closed_breaker_below_thresholds_allows() {
    let mut cb = CircuitBreaker::new(test_config()).unwrap();

    // No history at all: allowed.
    assert!(cb.check_command_allowed_at(0));

    // Four failures: 100% failure rate but below the absolute threshold.
    register_failures(&mut cb, 0, 4);
    assert!(cb.check_command_allowed_at(1));
    assert!(cb.check_command_allowed_at(2));
}

#[test]
fn closed_breaker_below_percentage_allows() {
    let mut cb = CircuitBreaker::new(test_config()).unwrap();

    // Six failures against seven successes: 46% < 50%, although the count
    // reaches the absolute threshold.
    for _ in 0..7 {
        cb.register_result_at::<(), ()>(0, &Ok(()));
    }
    register_failures(&mut cb, 0, 6);
    assert!(cb.check_command_allowed_at(1));
}

#[test]
fn breaker_trips_when_both_thresholds_reached() {
    let mut cb = CircuitBreaker::new(test_config()).unwrap();

    register_failures(&mut cb, 0, 5);

    // The very call that observes the thresholds is denied.
    assert!(!cb.check_command_allowed_at(1));
}

#[test]
fn open_breaker_denies_until_timer_elapses() {
    let mut cb = CircuitBreaker::new(test_config()).unwrap();

    register_failures(&mut cb, 0, 5);
    assert!(!cb.check_command_allowed_at(1)); // trips at time 1

    assert!(!cb.check_command_allowed_at(2));
    assert!(!cb.check_command_allowed_at(3000));
    assert!(!cb.check_command_allowed_at(5000)); // 4999 ms elapsed: still open
}

#[test]
fn open_breaker_closes_once_timer_elapses() {
    let mut cb = CircuitBreaker::new(test_config()).unwrap();

    register_failures(&mut cb, 0, 5);
    assert!(!cb.check_command_allowed_at(1)); // trips at time 1

    // 5000 ms after the trip the next check allows and the breaker is
    // closed again, with its counts reset to empty.
    assert!(cb.check_command_allowed_at(5001));
    assert!(cb.check_command_allowed_at(5002));
}

#[test]
fn trip_discards_the_failure_history() {
    let mut cb = CircuitBreaker::new(test_config()).unwrap();

    register_failures(&mut cb, 0, 5);
    assert!(!cb.check_command_allowed_at(1)); // trips at time 1
    assert!(cb.check_command_allowed_at(5001)); // closes again

    // The next closed period starts clean: four fresh failures are again
    // below the absolute threshold.
    register_failures(&mut cb, 5001, 4);
    assert!(cb.check_command_allowed_at(5002));
}

#[test]
fn successes_alone_never_trip() {
    let mut cb = CircuitBreaker::new(test_config()).unwrap();

    for _ in 0..100 {
        cb.register_result_at::<(), ()>(0, &Ok(()));
    }
    assert!(cb.check_command_allowed_at(1));
}

#[test]
fn breaker_new_rejects_overflowing_span() {
    let cfg = *Config::new().bucket_size_in_ms(u64::MAX).buckets_in_window(2);
    assert!(CircuitBreaker::new(cfg).is_err());

    // The largest span that still fits is accepted.
    let cfg = *Config::new().bucket_size_in_ms(u64::MAX).buckets_in_window(1);
    assert!(CircuitBreaker::new(cfg).is_ok());
}

#[test]
fn clock_sampled_breaker_trips() {
    let mut cb = CircuitBreaker::new(*Config::new().error_threshold(1)).unwrap();

    assert!(cb.check_command_allowed());
    cb.register_result::<(), ()>(&Err(()));
    assert!(!cb.check_command_allowed());
    assert!(!cb.check_command_allowed());
}
