//! Retry with exponential backoff, and a circuit breaker.

pub mod retry;
