use crate::config::CircuitBreakerConfig;
use vstd::prelude::*;

verus! {

/// The states of a circuit breaker.
#[derive(Debug, Clone, Copy, PartialEq, Eq, Structural)]
pub enum CircuitBreakerState {
    /// Calls run; failures are counted.
    Close,
    /// Calls are refused until the cooldown has passed.
    Open,
    /// Calls run as trials; enough successes close the breaker.
    HalfOpen,
}

/// The error of a call made through a circuit breaker.
#[derive(Debug, PartialEq, Eq)]
pub enum CircuitError<E> {
    /// The breaker was open: the operation was not invoked.
    Open,
    /// The operation ran and failed with this error.
    Operation(E),
}

/// What a circuit breaker holds, apart from its configuration.
pub struct BreakerModel {
    pub state: CircuitBreakerState,
    /// Failures counted since the last reset.
    pub failure_count: usize,
    /// Successful trials since the breaker last turned half-open.
    pub success_count: usize,
    /// When the breaker last opened, in milliseconds on the caller's clock.
    pub last_failure_time: Option<u64>,
}

impl BreakerModel {
    /// An open breaker knows when it opened.
    pub open spec fn wf(self) -> bool {
        self.state == CircuitBreakerState::Open ==> self.last_failure_time.is_some()
    }
}

/// `n + 1`, staying at `usize::MAX` once there.
pub open spec fn bump(n: usize) -> usize {
    if n == usize::MAX {
        n
    } else {
        (n + 1) as usize
    }
}

/// The cooldown since the breaker opened has passed at time `now`.
pub open spec fn cooldown_over(m: BreakerModel, config: CircuitBreakerConfig, now: u64) -> bool {
    match m.last_failure_time {
        Some(t) => now >= t + config.cooldown_period,
        None => true,
    }
}

/// A call made at time `now` is let through.
pub open spec fn lets_through(m: BreakerModel, config: CircuitBreakerConfig, now: u64) -> bool {
    m.state != CircuitBreakerState::Open || cooldown_over(m, config, now)
}

/// The breaker after the entry test of a call made at time `now`: an
/// open breaker whose cooldown has passed turns half-open, with no trial yet.
pub open spec fn after_entry(m: BreakerModel, config: CircuitBreakerConfig, now: u64) -> BreakerModel {
    if m.state == CircuitBreakerState::Open && cooldown_over(m, config, now) {
        BreakerModel { state: CircuitBreakerState::HalfOpen, success_count: 0, ..m }
    } else {
        m
    }
}

/// The breaker after a call that succeeded: a half-open breaker counts the
/// trial and closes, with no failure left, once enough trials succeeded; in
/// any other state the failure count goes back to 0.
pub open spec fn after_success(m: BreakerModel, config: CircuitBreakerConfig) -> BreakerModel {
    if m.state == CircuitBreakerState::HalfOpen {
        let successes = bump(m.success_count);
        if successes >= config.success_threshold {
            BreakerModel { state: CircuitBreakerState::Close, failure_count: 0, success_count: successes, ..m }
        } else {
            BreakerModel { success_count: successes, ..m }
        }
    } else {
        BreakerModel { failure_count: 0, ..m }
    }
}

/// The breaker after a call that failed at time `now`: one more failure, and
/// at the threshold it opens, stamped with `now`. A failed trial counts like
/// any other failure.
pub open spec fn after_failure(m: BreakerModel, config: CircuitBreakerConfig, now: u64) -> BreakerModel {
    let failures = bump(m.failure_count);
    if failures >= config.failure_threshold {
        BreakerModel {
            state: CircuitBreakerState::Open,
            failure_count: failures,
            last_failure_time: Some(now),
            ..m
        }
    } else {
        BreakerModel { failure_count: failures, ..m }
    }
}

/// Every transition keeps a well-formed breaker well formed.
pub proof fn lemma_transitions_keep_wf(m: BreakerModel, config: CircuitBreakerConfig, now: u64)
    requires
        m.wf(),
    ensures
        after_entry(m, config, now).wf(),
        after_success(m, config).wf(),
        after_failure(m, config, now).wf(),
{
}

/// The breaker after a call made at `start` whose operation failed at `end`.
pub open spec fn failed_call(m: BreakerModel, config: CircuitBreakerConfig, start: u64, end: u64) -> BreakerModel {
    after_failure(after_entry(m, config, start), config, end)
}

/// The breaker after a call made at `start` whose operation succeeded.
pub open spec fn succeeded_call(m: BreakerModel, config: CircuitBreakerConfig, start: u64) -> BreakerModel {
    after_success(after_entry(m, config, start), config)
}

/// With a failure threshold of 2, two failing calls in a row open a closed
/// breaker that had no failure, and a third call made before the cooldown has
/// passed since the second failure is refused, leaving the breaker as it was.
pub proof fn lemma_two_failures_open(
    config: CircuitBreakerConfig,
    m: BreakerModel,
    t1: u64,
    e1: u64,
    t2: u64,
    e2: u64,
    t3: u64,
)
    requires
        config.failure_threshold == 2,
        m.state == CircuitBreakerState::Close,
        m.failure_count == 0,
        t3 < e2 + config.cooldown_period,
    ensures
        lets_through(m, config, t1),
        failed_call(m, config, t1, e1).state == CircuitBreakerState::Close,
        lets_through(failed_call(m, config, t1, e1), config, t2),
        failed_call(failed_call(m, config, t1, e1), config, t2, e2).state == CircuitBreakerState::Open,
        !lets_through(failed_call(failed_call(m, config, t1, e1), config, t2, e2), config, t3),
        after_entry(failed_call(failed_call(m, config, t1, e1), config, t2, e2), config, t3)
            == failed_call(failed_call(m, config, t1, e1), config, t2, e2),
{
}

/// An open breaker whose cooldown has passed lets the next call through as a
/// half-open trial; with a success threshold of 2, two successful trials close
/// it with no failure counted.
pub proof fn lemma_cooldown_then_trials_close(
    config: CircuitBreakerConfig,
    m: BreakerModel,
    t1: u64,
    t2: u64,
)
    requires
        config.success_threshold == 2,
        m.state == CircuitBreakerState::Open,
        cooldown_over(m, config, t1),
    ensures
        lets_through(m, config, t1),
        after_entry(m, config, t1).state == CircuitBreakerState::HalfOpen,
        succeeded_call(m, config, t1).state == CircuitBreakerState::HalfOpen,
        lets_through(succeeded_call(m, config, t1), config, t2),
        succeeded_call(succeeded_call(m, config, t1), config, t2).state == CircuitBreakerState::Close,
        succeeded_call(succeeded_call(m, config, t1), config, t2).failure_count == 0,
{
}

/// A circuit breaker guarding one resource.
///
/// It is a single-owner state machine: every change goes through `&mut self`,
/// and callers that share one breaker serialise their access themselves.
/// Times are milliseconds on a clock of the caller's choosing, the same for
/// every call.
pub struct CircuitBreaker<'a> {
    config: &'a CircuitBreakerConfig,
    state: CircuitBreakerState,
    failure_count: usize,
    success_count: usize,
    last_failure_time: Option<u64>,
}

impl<'a> View for CircuitBreaker<'a> {
    type V = BreakerModel;

    closed spec fn view(&self) -> BreakerModel {
        BreakerModel {
            state: self.state,
            failure_count: self.failure_count,
            success_count: self.success_count,
            last_failure_time: self.last_failure_time,
        }
    }
}

impl<'a> CircuitBreaker<'a> {
    /// The configuration the breaker was made with.
    pub closed spec fn spec_config(&self) -> CircuitBreakerConfig {
        *self.config
    }

    /// A closed breaker with no failure and no success recorded.
    pub fn new(config: &'a CircuitBreakerConfig) -> (r: Self)
        ensures
            r.spec_config() == *config,
            r@.state == CircuitBreakerState::Close,
            r@.failure_count == 0,
            r@.success_count == 0,
            r@.last_failure_time.is_none(),
            r@.wf(),
    {
        CircuitBreaker {
            config,
            state: CircuitBreakerState::Close,
            failure_count: 0,
            success_count: 0,
            last_failure_time: None,
        }
    }

    /// The current state.
    pub fn state(&self) -> (r: CircuitBreakerState)
        ensures
            r == self@.state,
    {
        self.state
    }

    /// Failures counted since the count was last reset.
    pub fn failure_count(&self) -> (r: usize)
        ensures
            r == self@.failure_count,
    {
        self.failure_count
    }

    /// Successful trials since the breaker last turned half-open.
    pub fn success_count(&self) -> (r: usize)
        ensures
            r == self@.success_count,
    {
        self.success_count
    }

    /// The entry test of a call made at time `now`: returns whether
    /// the operation may run. An open breaker refuses until its cooldown has
    /// passed, and then turns half-open.
    pub fn allow_call(&mut self, now: u64) -> (allowed: bool)
        ensures
            allowed == lets_through(old(self)@, old(self).spec_config(), now),
            final(self)@ == after_entry(old(self)@, old(self).spec_config(), now),
            final(self).spec_config() == old(self).spec_config(),
    {
        if self.state != CircuitBreakerState::Open {
            return true;
        }
        let over = match self.last_failure_time {
            Some(t) => now >= t && now - t >= self.config.cooldown_period,
            None => true,
        };
        if over {
            self.state = CircuitBreakerState::HalfOpen;
            self.success_count = 0;
        }
        over
    }

    /// Records that the operation succeeded.
    pub fn on_success(&mut self)
        ensures
            final(self)@ == after_success(old(self)@, old(self).spec_config()),
            final(self).spec_config() == old(self).spec_config(),
    {
        match self.state {
            CircuitBreakerState::HalfOpen => {
                if self.success_count < usize::MAX {
                    self.success_count = self.success_count + 1;
                }
                if self.success_count >= self.config.success_threshold {
                    self.state = CircuitBreakerState::Close;
                    self.failure_count = 0;
                }
            },
            _ => {
                self.failure_count = 0;
            },
        }
    }

    /// Records that the operation failed at time `now`.
    pub fn on_failure(&mut self, now: u64)
        ensures
            final(self)@ == after_failure(old(self)@, old(self).spec_config(), now),
            final(self).spec_config() == old(self).spec_config(),
    {
        if self.failure_count < usize::MAX {
            self.failure_count = self.failure_count + 1;
        }
        if self.failure_count >= self.config.failure_threshold {
            self.state = CircuitBreakerState::Open;
            self.last_failure_time = Some(now);
        }
    }

    /// Records the outcome of an operation that `allow_call` let through and
    /// that ended at time `now`, and hands it back, its error wrapped.
    pub fn record_outcome<T, E>(&mut self, outcome: Result<T, E>, now: u64) -> (r: Result<T, CircuitError<E>>)
        ensures
            final(self).spec_config() == old(self).spec_config(),
            match outcome {
                Ok(v) => {
                    &&& r == Ok::<T, CircuitError<E>>(v)
                    &&& final(self)@ == after_success(old(self)@, old(self).spec_config())
                },
                Err(e) => {
                    &&& r == Err::<T, CircuitError<E>>(CircuitError::Operation(e))
                    &&& final(self)@ == after_failure(old(self)@, old(self).spec_config(), now)
                },
            },
    {
        match outcome {
            Ok(v) => {
                self.on_success();
                Ok(v)
            },
            Err(e) => {
                self.on_failure(now);
                Err(CircuitError::Operation(e))
            },
        }
    }

    /// Runs `operation` under the breaker, in blocking code: refused with
    /// `CircuitError::Open`, without running it, while the breaker is open;
    /// otherwise run once and its outcome recorded. `clock` gives the time,
    /// read at the start of the call and again when the operation has ended.
    pub fn call<T, E, F, K>(&mut self, clock: &K, operation: F) -> (r: Result<T, CircuitError<E>>) where
        F: FnOnce() -> Result<T, E>,
        K: Fn() -> u64,

        requires
            call_requires(operation, ()),
            call_requires(*clock, ()),
        ensures
            final(self).spec_config() == old(self).spec_config(),
            exists|start: u64|
                #[trigger] call_ensures(*clock, (), start) && {
                    let entered = after_entry(old(self)@, old(self).spec_config(), start);
                    if lets_through(old(self)@, old(self).spec_config(), start) {
                        exists|outcome: Result<T, E>, end: u64|
                            #[trigger] call_ensures(operation, (), outcome) && #[trigger] call_ensures(*clock, (), end)
                                && match outcome {
                                Ok(v) => {
                                    &&& r == Ok::<T, CircuitError<E>>(v)
                                    &&& final(self)@ == after_success(entered, old(self).spec_config())
                                },
                                Err(e) => {
                                    &&& r == Err::<T, CircuitError<E>>(CircuitError::Operation(e))
                                    &&& final(self)@ == after_failure(entered, old(self).spec_config(), end)
                                },
                            }
                    } else {
                        &&& r == Err::<T, CircuitError<E>>(CircuitError::Open)
                        &&& final(self)@ == old(self)@
                    }
                },
    {
        let start = clock();
        if !self.allow_call(start) {
            return Err(CircuitError::Open);
        }
        let outcome = operation();
        let end = clock();
        self.record_outcome(outcome, end)
    }
}

} // verus!
