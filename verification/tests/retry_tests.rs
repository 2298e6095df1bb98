use freqtrade_rs::error::AppError;
use freqtrade_rs::utils::retry::{
    after_failure, next_delay, CircuitBreaker, CircuitBreakerError, CircuitBreakerState, RetryConfig, RetryStep,
};

#[test]
fn retry_defaults() {
    let config = RetryConfig::default();
    assert_eq!(config.max_retries, 3);
    assert_eq!(config.base_delay_ms, 1000);
    assert_eq!(config.max_delay_ms, 10000);
    assert_eq!(config.backoff_multiplier, 2);
    assert!(config.retry_on_transient);
}

#[test]
fn the_delay_doubles_up_to_the_cap() {
    let config = RetryConfig::default();
    let mut delay = config.base_delay_ms;
    let mut delays = vec![delay];
    for _ in 0..5 {
        delay = next_delay(&config, delay);
        delays.push(delay);
    }
    assert_eq!(delays, vec![1000, 2000, 4000, 8000, 10000, 10000]);
    let wide = RetryConfig { backoff_multiplier: u64::MAX, max_delay_ms: u64::MAX, ..config };
    assert_eq!(next_delay(&wide, u64::MAX), u64::MAX);
}

#[test]
fn a_policy_gives_up_when_it_must() {
    let config = RetryConfig::default();
    assert_eq!(after_failure(&config, 0, true, 1000), RetryStep::RetryAfter(1000));
    assert_eq!(after_failure(&config, 2, true, 4000), RetryStep::RetryAfter(4000));
    assert_eq!(after_failure(&config, 3, true, 8000), RetryStep::GiveUp);
    assert_eq!(after_failure(&config, 0, false, 1000), RetryStep::GiveUp);
    let never = RetryConfig { retry_on_transient: false, ..config };
    assert_eq!(after_failure(&never, 0, true, 1000), RetryStep::GiveUp);
}

#[test]
fn the_breaker_opens_after_failures_in_a_row() {
    let mut breaker = CircuitBreaker::new(3, 2, 30);
    assert_eq!(breaker.get_state(), CircuitBreakerState::Closed);
    breaker.record_failure(100);
    breaker.record_failure(101);
    assert_eq!(breaker.get_state(), CircuitBreakerState::Closed);
    breaker.record_success();
    breaker.record_failure(102);
    breaker.record_failure(103);
    assert_eq!(breaker.get_state(), CircuitBreakerState::Closed);
    breaker.record_failure(104);
    assert_eq!(breaker.get_state(), CircuitBreakerState::Open);
    assert!(!breaker.can_proceed(133));
    assert_eq!(breaker.get_state(), CircuitBreakerState::Open);
}

#[test]
fn the_breaker_closes_after_successes_on_trial() {
    let mut breaker = CircuitBreaker::new(1, 2, 30);
    breaker.record_failure(100);
    assert_eq!(breaker.get_state(), CircuitBreakerState::Open);
    assert!(breaker.can_proceed(130));
    assert_eq!(breaker.get_state(), CircuitBreakerState::HalfOpen);
    breaker.record_success();
    assert_eq!(breaker.get_state(), CircuitBreakerState::HalfOpen);
    breaker.record_success();
    assert_eq!(breaker.get_state(), CircuitBreakerState::Closed);
    assert_eq!(breaker.failure_count, 0);

    breaker.record_failure(200);
    assert!(breaker.can_proceed(230));
    breaker.settle(false, 231);
    assert_eq!(breaker.get_state(), CircuitBreakerState::Open);
    assert!(!breaker.can_proceed(260));
    assert!(breaker.can_proceed(261));
}

#[test]
fn the_breaker_errors_as_text() {
    assert_eq!(CircuitBreakerError::Open.describe(), "Circuit breaker is open");
    assert_eq!(
        CircuitBreakerError::OperationFailed(AppError::Exchange("down".to_string())).describe(),
        "Operation failed: Exchange error: down"
    );
}
