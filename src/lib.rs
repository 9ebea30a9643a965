//! Resilience combinators: retry with configurable backoff, a circuit breaker
//! and timeout-with-fallback execution, with their decisions verified.
//!
//! All durations are whole milliseconds held in a `u64`.

/// Backoff strategies: the delay before the next attempt.
pub mod strategies;

/// Configuration of retry runs, timed executions and circuit breakers.
pub mod config;

/// The retry engine.
pub mod retry;

/// The circuit breaker state machine.
pub mod breaker;

/// Execution against a deadline, with an optional fallback.
pub mod execution;
