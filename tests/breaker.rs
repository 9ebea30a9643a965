use resilient_rs::breaker::{CircuitBreaker, CircuitBreakerState, CircuitError};
use resilient_rs::config::CircuitBreakerConfig;

#[test]
fn new_breaker_is_closed() {
    let config = CircuitBreakerConfig::new(2, 3, 5000);
    let cb = CircuitBreaker::new(&config);
    assert_eq!(cb.state(), CircuitBreakerState::Close);
    assert_eq!(cb.failure_count(), 0);
    assert_eq!(cb.success_count(), 0);
}

#[test]
fn two_failures_open_and_block_until_cooldown() {
    let config = CircuitBreakerConfig::new(2, 2, 300);
    let mut cb = CircuitBreaker::new(&config);

    assert!(cb.allow_call(0));
    let r: Result<(), CircuitError<&str>> = cb.record_outcome(Err("boom"), 10);
    assert_eq!(r, Err(CircuitError::Operation("boom")));
    assert_eq!(cb.state(), CircuitBreakerState::Close);

    assert!(cb.allow_call(20));
    cb.on_failure(30);
    assert_eq!(cb.state(), CircuitBreakerState::Open);
    assert_eq!(cb.failure_count(), 2);

    assert!(!cb.allow_call(100));
    assert!(!cb.allow_call(329));
    assert_eq!(cb.state(), CircuitBreakerState::Open);
}

#[test]
fn cooldown_then_two_trials_close() {
    let config = CircuitBreakerConfig::new(2, 2, 300);
    let mut cb = CircuitBreaker::new(&config);
    cb.on_failure(0);
    cb.on_failure(10);
    assert_eq!(cb.state(), CircuitBreakerState::Open);

    assert!(cb.allow_call(310));
    assert_eq!(cb.state(), CircuitBreakerState::HalfOpen);
    assert_eq!(cb.success_count(), 0);

    let r: Result<u32, CircuitError<&str>> = cb.record_outcome(Ok(7), 320);
    assert_eq!(r, Ok(7));
    assert_eq!(cb.state(), CircuitBreakerState::HalfOpen);
    assert_eq!(cb.success_count(), 1);

    assert!(cb.allow_call(330));
    cb.on_success();
    assert_eq!(cb.state(), CircuitBreakerState::Close);
    assert_eq!(cb.failure_count(), 0);
}

#[test]
fn half_open_failure_counts_against_threshold() {
    let config = CircuitBreakerConfig::new(2, 2, 100);
    let mut cb = CircuitBreaker::new(&config);
    cb.on_failure(0);
    cb.on_failure(0);
    assert!(cb.allow_call(100));
    assert_eq!(cb.state(), CircuitBreakerState::HalfOpen);
    cb.on_failure(150);
    assert_eq!(cb.state(), CircuitBreakerState::Open);
    assert_eq!(cb.failure_count(), 3);
    assert!(!cb.allow_call(249));
    assert!(cb.allow_call(250));
}

#[test]
fn success_in_closed_state_resets_failures() {
    let config = CircuitBreakerConfig::new(1, 3, 100);
    let mut cb = CircuitBreaker::new(&config);
    cb.on_failure(0);
    cb.on_failure(0);
    assert_eq!(cb.failure_count(), 2);
    cb.on_success();
    assert_eq!(cb.failure_count(), 0);
    cb.on_failure(0);
    assert_eq!(cb.state(), CircuitBreakerState::Close);
}

#[test]
fn clock_going_back_keeps_breaker_open() {
    let config = CircuitBreakerConfig::new(1, 1, 100);
    let mut cb = CircuitBreaker::new(&config);
    cb.on_failure(1000);
    assert!(!cb.allow_call(500));
    assert_eq!(cb.state(), CircuitBreakerState::Open);
}

#[test]
fn circuit_breaker_config_builders() {
    let config = CircuitBreakerConfig::default();
    assert_eq!(config.failure_threshold, 5);
    assert_eq!(config.success_threshold, 2);
    assert_eq!(config.cooldown_period, 2000);

    let config = CircuitBreakerConfig::new(3, 5, 10000);
    assert_eq!(config.failure_threshold, 5);
    assert_eq!(config.success_threshold, 3);

    let config = CircuitBreakerConfig::default()
        .with_failure_threshold(3)
        .with_success_threshold(4)
        .with_cooldown_period(5000);
    assert_eq!(config.failure_threshold, 3);
    assert_eq!(config.success_threshold, 4);
    assert_eq!(config.cooldown_period, 5000);
}

#[test]
fn blocking_call_refuses_while_open() {
    let config = CircuitBreakerConfig::new(2, 2, 300);
    let mut cb = CircuitBreaker::new(&config);
    let now = std::cell::Cell::new(0u64);
    let clock = || now.get();
    let invoked = std::cell::Cell::new(0usize);

    for _ in 0..2 {
        let r: Result<(), CircuitError<&str>> = cb.call(&clock, || {
            invoked.set(invoked.get() + 1);
            Err("down")
        });
        assert_eq!(r, Err(CircuitError::Operation("down")));
        now.set(now.get() + 10);
    }
    assert_eq!(cb.state(), CircuitBreakerState::Open);

    let r: Result<(), CircuitError<&str>> = cb.call(&clock, || {
        invoked.set(invoked.get() + 1);
        Ok(())
    });
    assert_eq!(r, Err(CircuitError::Open));
    assert_eq!(invoked.get(), 2);

    now.set(400);
    let r: Result<u8, CircuitError<&str>> = cb.call(&clock, || Ok(1));
    assert_eq!(r, Ok(1));
    assert_eq!(cb.state(), CircuitBreakerState::HalfOpen);
    let r: Result<u8, CircuitError<&str>> = cb.call(&clock, || Ok(2));
    assert_eq!(r, Ok(2));
    assert_eq!(cb.state(), CircuitBreakerState::Close);
    assert_eq!(cb.failure_count(), 0);
}
