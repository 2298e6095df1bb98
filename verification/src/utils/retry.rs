//! The decisions of a retry policy with exponential backoff and of a circuit
//! breaker. Running the operation and sleeping are the caller's part.

use crate::error::AppError;
use crate::text::join2;
use vstd::prelude::*;
use vstd::string::*;

verus! {

/// The settings of a retry policy, with delays in milliseconds.
#[derive(Debug, Clone, Copy, PartialEq, Eq)]
pub struct RetryConfig {
    /// How many times a failed operation is tried again.
    pub max_retries: u32,
    /// The delay before the first retry.
    pub base_delay_ms: u64,
    /// The longest delay between retries.
    pub max_delay_ms: u64,
    /// By how much the delay grows from one retry to the next.
    pub backoff_multiplier: u64,
    /// Whether transient errors are retried at all.
    pub retry_on_transient: bool,
}

impl Default for RetryConfig {
    fn default() -> (r: Self)
        ensures
            r.max_retries == 3,
            r.base_delay_ms == 1000,
            r.max_delay_ms == 10000,
            r.backoff_multiplier == 2,
            r.retry_on_transient,
    {
        RetryConfig {
            max_retries: 3,
            base_delay_ms: 1000,
            max_delay_ms: 10000,
            backoff_multiplier: 2,
            retry_on_transient: true,
        }
    }
}

/// The smaller of two numbers.
pub open spec fn lesser(a: int, b: int) -> int {
    if a < b {
        a
    } else {
        b
    }
}

/// The delay after a delay: multiplied by the backoff multiplier, and no
/// longer than the longest delay.
pub open spec fn delay_after(config: RetryConfig, delay_ms: int) -> int {
    lesser(delay_ms * config.backoff_multiplier, config.max_delay_ms as int)
}

/// The delay before retry number `retry`, counted from zero: the base delay
/// first, then each delay multiplied and capped.
pub open spec fn delay_before_retry(config: RetryConfig, retry: nat) -> int
    decreases retry,
{
    if retry == 0 {
        config.base_delay_ms as int
    } else {
        delay_after(config, delay_before_retry(config, (retry - 1) as nat))
    }
}

/// The delay after a delay: multiplied by the backoff multiplier, and no
/// longer than the longest delay.
pub fn next_delay(config: &RetryConfig, delay_ms: u64) -> (r: u64)
    ensures
        r == delay_after(*config, delay_ms as int),
        r <= config.max_delay_ms,
{
    assert(delay_ms * config.backoff_multiplier <= u128::MAX) by (nonlinear_arith)
        requires
            0 <= delay_ms <= u64::MAX,
            0 <= config.backoff_multiplier <= u64::MAX,
    ;
    let wide: u128 = (delay_ms as u128) * (config.backoff_multiplier as u128);
    if wide < config.max_delay_ms as u128 {
        wide as u64
    } else {
        config.max_delay_ms
    }
}

/// What a retry policy does after a failed attempt.
#[derive(Debug, Clone, Copy, PartialEq, Eq, Structural)]
pub enum RetryStep {
    /// Return the error: it is not retryable, the retries are used up, or
    /// transient errors are not retried.
    GiveUp,
    /// Sleep this many milliseconds, then try again.
    RetryAfter(u64),
}

/// What a retry policy does after attempt number `attempt`, counted from
/// zero, failed, when the delay in force is `delay_ms`: it gives up where the
/// error is not retryable, where the attempt was the last one allowed, or
/// where transient errors are not retried; otherwise it retries after the
/// delay.
pub fn after_failure(config: &RetryConfig, attempt: u32, retryable: bool, delay_ms: u64) -> (r:
    RetryStep)
    ensures
        r == if !retryable || attempt >= config.max_retries || !config.retry_on_transient {
            RetryStep::GiveUp
        } else {
            RetryStep::RetryAfter(delay_ms)
        },
{
    if !retryable || attempt >= config.max_retries || !config.retry_on_transient {
        RetryStep::GiveUp
    } else {
        RetryStep::RetryAfter(delay_ms)
    }
}

/// The state of a circuit breaker.
#[derive(Debug, Clone, Copy, PartialEq, Eq, Structural, Hash)]
pub enum CircuitBreakerState {
    /// Requests pass.
    Closed,
    /// Requests pass on trial, to see whether the service has recovered.
    HalfOpen,
    /// Requests are blocked.
    Open,
}

/// A circuit breaker: it opens after a number of failures in a row, lets
/// requests pass on trial after a timeout, and closes again after a number
/// of successes on trial. Instants are given in whole seconds of a clock
/// that does not run backwards.
#[derive(Debug, Clone, Copy, PartialEq, Eq)]
pub struct CircuitBreaker {
    pub state: CircuitBreakerState,
    pub failure_count: u32,
    pub success_count: u32,
    /// How many failures in a row open the circuit.
    pub failure_threshold: u32,
    /// How many successes on trial close it.
    pub success_threshold: u32,
    /// How many seconds after the last failure requests pass on trial.
    pub timeout_secs: u64,
    /// The instant of the last failure that opened the circuit or hit it
    /// while it was open.
    pub last_failure: Option<u64>,
}

/// `n + 1`, or `n` where that is more than a `u32` holds.
pub open spec fn bumped(n: u32) -> u32 {
    if n < u32::MAX {
        (n + 1) as u32
    } else {
        n
    }
}

impl CircuitBreaker {
    /// A closed circuit breaker with the given thresholds and timeout.
    pub fn new(failure_threshold: u32, success_threshold: u32, timeout_secs: u64) -> (r: Self)
        ensures
            r == (CircuitBreaker {
                state: CircuitBreakerState::Closed,
                failure_count: 0,
                success_count: 0,
                failure_threshold,
                success_threshold,
                timeout_secs,
                last_failure: None,
            }),
    {
        CircuitBreaker {
            state: CircuitBreakerState::Closed,
            failure_count: 0,
            success_count: 0,
            failure_threshold,
            success_threshold,
            timeout_secs,
            last_failure: None,
        }
    }

    /// Whether an open circuit lets a request pass on trial at `now`: the
    /// timeout has passed since the last failure.
    pub open spec fn timed_out(self, now: u64) -> bool {
        self.last_failure matches Some(last) && now >= last && now - last >= self.timeout_secs
    }

    /// The breaker after a request asked to pass at `now`.
    pub open spec fn after_ask(self, now: u64) -> CircuitBreaker {
        if self.state == CircuitBreakerState::Open && self.timed_out(now) {
            CircuitBreaker { state: CircuitBreakerState::HalfOpen, success_count: 0, ..self }
        } else {
            self
        }
    }

    /// Whether a request may pass at `now`. A closed or half-open circuit
    /// lets it pass. An open circuit lets it pass once the timeout has passed
    /// since the last failure, and is half-open from then on, with its count
    /// of successes at zero.
    pub fn can_proceed(&mut self, now: u64) -> (r: bool)
        ensures
            *final(self) == old(self).after_ask(now),
            r == (old(self).state != CircuitBreakerState::Open || old(self).timed_out(now)),
    {
        match self.state {
            CircuitBreakerState::Closed => true,
            CircuitBreakerState::HalfOpen => true,
            CircuitBreakerState::Open => {
                match self.last_failure {
                    Some(last) => {
                        if now >= last && now - last >= self.timeout_secs {
                            self.state = CircuitBreakerState::HalfOpen;
                            self.success_count = 0;
                            true
                        } else {
                            false
                        }
                    },
                    None => false,
                }
            },
        }
    }

    /// The breaker after a success.
    pub open spec fn after_success(self) -> CircuitBreaker {
        match self.state {
            CircuitBreakerState::HalfOpen => if bumped(self.success_count)
                >= self.success_threshold {
                CircuitBreaker {
                    state: CircuitBreakerState::Closed,
                    success_count: bumped(self.success_count),
                    failure_count: 0,
                    ..self
                }
            } else {
                CircuitBreaker { success_count: bumped(self.success_count), ..self }
            },
            CircuitBreakerState::Closed => CircuitBreaker { failure_count: 0, ..self },
            CircuitBreakerState::Open => self,
        }
    }

    /// Records a success. On trial it counts towards closing the circuit,
    /// which closes, with its count of failures at zero, once the threshold
    /// is reached. On a closed circuit it sets the count of failures to zero.
    pub fn record_success(&mut self)
        ensures
            *final(self) == old(self).after_success(),
    {
        match self.state {
            CircuitBreakerState::HalfOpen => {
                if self.success_count < u32::MAX {
                    self.success_count = self.success_count + 1;
                }
                if self.success_count >= self.success_threshold {
                    self.state = CircuitBreakerState::Closed;
                    self.failure_count = 0;
                }
            },
            CircuitBreakerState::Closed => {
                self.failure_count = 0;
            },
            CircuitBreakerState::Open => {},
        }
    }

    /// The breaker after a failure at `now`.
    pub open spec fn after_failure(self, now: u64) -> CircuitBreaker {
        match self.state {
            CircuitBreakerState::HalfOpen => CircuitBreaker {
                state: CircuitBreakerState::Open,
                last_failure: Some(now),
                ..self
            },
            CircuitBreakerState::Closed => if bumped(self.failure_count)
                >= self.failure_threshold {
                CircuitBreaker {
                    state: CircuitBreakerState::Open,
                    failure_count: bumped(self.failure_count),
                    last_failure: Some(now),
                    ..self
                }
            } else {
                CircuitBreaker { failure_count: bumped(self.failure_count), ..self }
            },
            CircuitBreakerState::Open => CircuitBreaker { last_failure: Some(now), ..self },
        }
    }

    /// Records a failure at `now`. On trial it opens the circuit again. On
    /// a closed circuit it counts, and opens the circuit once the threshold
    /// is reached. On an open circuit it renews the instant of the last
    /// failure.
    pub fn record_failure(&mut self, now: u64)
        ensures
            *final(self) == old(self).after_failure(now),
    {
        match self.state {
            CircuitBreakerState::HalfOpen => {
                self.state = CircuitBreakerState::Open;
                self.last_failure = Some(now);
            },
            CircuitBreakerState::Closed => {
                if self.failure_count < u32::MAX {
                    self.failure_count = self.failure_count + 1;
                }
                if self.failure_count >= self.failure_threshold {
                    self.state = CircuitBreakerState::Open;
                    self.last_failure = Some(now);
                }
            },
            CircuitBreakerState::Open => {
                self.last_failure = Some(now);
            },
        }
    }

    /// Asks whether an operation may run at `now`: `Ok` where the breaker
    /// lets it pass, the error `Open` where it does not.
    pub fn let_pass(&mut self, now: u64) -> (r: Result<(), CircuitBreakerError>)
        ensures
            *final(self) == old(self).after_ask(now),
            r is Ok <==> old(self).state != CircuitBreakerState::Open || old(self).timed_out(now),
            r matches Err(e) ==> e is Open,
    {
        if self.can_proceed(now) {
            Ok(())
        } else {
            Err(CircuitBreakerError::Open)
        }
    }

    /// The state of the breaker.
    pub fn get_state(&self) -> (r: CircuitBreakerState)
        ensures
            r == self.state,
    {
        self.state
    }

    /// Records the outcome of an operation that was let pass.
    pub fn settle(&mut self, succeeded: bool, now: u64)
        ensures
            *final(self) == if succeeded {
                old(self).after_success()
            } else {
                old(self).after_failure(now)
            },
    {
        if succeeded {
            self.record_success();
        } else {
            self.record_failure(now);
        }
    }
}

/// Why an operation behind a circuit breaker gave no result.
#[derive(Debug, Clone, PartialEq, Eq)]
pub enum CircuitBreakerError {
    /// The circuit is open: the operation was not run.
    Open,
    /// The operation ran and failed.
    OperationFailed(AppError),
}

impl CircuitBreakerError {
    /// The text shown to a user.
    pub fn describe(&self) -> (r: String)
        ensures
            r@ == match *self {
                CircuitBreakerError::Open => "Circuit breaker is open"@,
                CircuitBreakerError::OperationFailed(e) => "Operation failed: "@ + (e.spec_prefix()
                    + e.spec_message()),
            },
    {
        match self {
            CircuitBreakerError::Open => String::from_str("Circuit breaker is open"),
            CircuitBreakerError::OperationFailed(e) => {
                let inner = e.describe();
                join2("Operation failed: ", inner.as_str())
            },
        }
    }
}

} // verus!
