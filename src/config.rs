use crate::strategies::RetryStrategy;
use vstd::prelude::*;

verus! {

/// Settings of one retry run.
///
/// `C` is the retry condition: a predicate over the operation's error that says
/// whether a failure may be retried. Without one every failure may be retried.
pub struct RetryConfig<C> {
    /// Total number of invocations allowed, the first one included.
    pub max_attempts: usize,
    /// Base delay between attempts, in milliseconds.
    pub delay: u64,
    /// How the delay grows with the attempt number.
    pub strategy: RetryStrategy,
    /// Optional predicate deciding which errors are worth another attempt.
    pub retry_condition: Option<C>,
}

impl<C> Default for RetryConfig<C> {
    /// Three attempts, two seconds apart, linear, every failure retried.
    fn default() -> (r: Self)
        ensures
            r.max_attempts == 3,
            r.delay == 2000,
            r.strategy == RetryStrategy::Linear,
            r.retry_condition.is_none(),
    {
        RetryConfig { max_attempts: 3, delay: 2000, strategy: RetryStrategy::Linear, retry_condition: None }
    }
}

impl<C> RetryConfig<C> {
    /// A configuration without retry condition.
    pub fn new(max_attempts: usize, delay: u64, strategy: RetryStrategy) -> (r: Self)
        ensures
            r.max_attempts == max_attempts,
            r.delay == delay,
            r.strategy == strategy,
            r.retry_condition.is_none(),
    {
        RetryConfig { max_attempts, delay, strategy, retry_condition: None }
    }

    /// The same configuration, retrying only the errors that `retry_condition` accepts.
    pub fn with_retry_condition(self, retry_condition: C) -> (r: Self)
        ensures
            r.max_attempts == self.max_attempts,
            r.delay == self.delay,
            r.strategy == self.strategy,
            r.retry_condition == Some(retry_condition),
    {
        RetryConfig { retry_condition: Some(retry_condition), ..self }
    }

    /// The same configuration with another backoff strategy.
    pub fn with_strategy(self, strategy: RetryStrategy) -> (r: Self)
        ensures
            r.max_attempts == self.max_attempts,
            r.delay == self.delay,
            r.strategy == strategy,
            r.retry_condition == self.retry_condition,
    {
        RetryConfig { strategy, ..self }
    }
}

/// Settings of an execution raced against a deadline.
///
/// `F` produces the fallback result when the deadline passes first.
pub struct ExecConfig<F> {
    /// Time allowed to the operation, in milliseconds.
    pub timeout_duration: u64,
    /// Optional producer of a substitute result, run after a timeout.
    pub fallback: Option<F>,
}

impl<F> ExecConfig<F> {
    /// A configuration with the given deadline and no fallback.
    pub fn new(timeout_duration: u64) -> (r: Self)
        ensures
            r.timeout_duration == timeout_duration,
            r.fallback.is_none(),
    {
        ExecConfig { timeout_duration, fallback: None }
    }

    /// Installs `fallback`, keeping the deadline.
    pub fn with_fallback(&mut self, fallback: F)
        ensures
            final(self).timeout_duration == old(self).timeout_duration,
            final(self).fallback == Some(fallback),
    {
        self.fallback = Some(fallback);
    }
}

/// Thresholds and cooldown of a circuit breaker.
#[derive(Debug, Clone, Copy, PartialEq, Eq, Structural)]
pub struct CircuitBreakerConfig {
    /// Failures that open the breaker.
    pub failure_threshold: usize,
    /// Successful trials in half-open state that close it again.
    pub success_threshold: usize,
    /// Time the breaker stays open before a trial, in milliseconds.
    pub cooldown_period: u64,
}

impl CircuitBreakerConfig {
    /// Both thresholds and the cooldown are positive.
    pub open spec fn wf(&self) -> bool {
        &&& self.failure_threshold > 0
        &&& self.success_threshold > 0
        &&& self.cooldown_period > 0
    }

    /// A configuration from positive thresholds and a positive cooldown.
    pub fn new(success_threshold: usize, failure_threshold: usize, cooldown_period: u64) -> (r: Self)
        requires
            success_threshold > 0,
            failure_threshold > 0,
            cooldown_period > 0,
        ensures
            r.success_threshold == success_threshold,
            r.failure_threshold == failure_threshold,
            r.cooldown_period == cooldown_period,
            r.wf(),
    {
        CircuitBreakerConfig { failure_threshold, success_threshold, cooldown_period }
    }

    /// The same configuration with another positive failure threshold.
    pub fn with_failure_threshold(self, threshold: usize) -> (r: Self)
        requires
            threshold > 0,
        ensures
            r == (CircuitBreakerConfig { failure_threshold: threshold, ..self }),
    {
        CircuitBreakerConfig { failure_threshold: threshold, ..self }
    }

    /// The same configuration with another positive success threshold.
    pub fn with_success_threshold(self, threshold: usize) -> (r: Self)
        requires
            threshold > 0,
        ensures
            r == (CircuitBreakerConfig { success_threshold: threshold, ..self }),
    {
        CircuitBreakerConfig { success_threshold: threshold, ..self }
    }

    /// The same configuration with another positive cooldown, in milliseconds.
    pub fn with_cooldown_period(self, period: u64) -> (r: Self)
        requires
            period > 0,
        ensures
            r == (CircuitBreakerConfig { cooldown_period: period, ..self }),
    {
        CircuitBreakerConfig { cooldown_period: period, ..self }
    }
}

impl Default for CircuitBreakerConfig {
    /// Five failures open the breaker, two trials close it, two seconds of cooldown.
    fn default() -> (r: Self)
        ensures
            r.failure_threshold == 5,
            r.success_threshold == 2,
            r.cooldown_period == 2000,
    {
        CircuitBreakerConfig { failure_threshold: 5, success_threshold: 2, cooldown_period: 2000 }
    }
}

} // verus!
