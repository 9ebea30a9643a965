use crate::config::RetryConfig;
use crate::strategies::{admissible_delay, RetryStrategy};
use vstd::prelude::*;

verus! {

/// What a retry run does after a failed attempt.
#[derive(Debug, Clone, Copy, PartialEq, Eq, Structural)]
pub enum RetryStep {
    /// Stop and report the failure.
    GiveUp,
    /// Wait this many milliseconds, then invoke the operation again.
    RetryAfter(u64),
}

/// Whether `verdict` is a verdict that the retry condition may give on `err`;
/// without a condition every failure may be retried.
pub open spec fn condition_gives<E, C: Fn(&E) -> bool>(cond: Option<C>, err: E, verdict: bool) -> bool {
    match cond {
        Some(c) => call_ensures(c, (&err,), verdict),
        None => verdict,
    }
}

/// The retry condition, if any, accepts every error as argument.
pub open spec fn condition_callable<E, C: Fn(&E) -> bool>(cond: Option<C>) -> bool {
    cond.is_some() ==> forall|e: &E| call_requires(cond.unwrap(), (e,))
}

/// After the outcome of attempt `attempt`, the run goes on: it was a failure,
/// attempts are left, and the condition accepted it.
pub open spec fn continues<T, E, C: Fn(&E) -> bool>(
    config: RetryConfig<C>,
    attempt: int,
    outcome: Result<T, E>,
) -> bool {
    match outcome {
        Ok(_) => false,
        Err(e) => attempt + 1 < config.max_attempts && condition_gives(config.retry_condition, e, true),
    }
}

/// After the outcome of attempt `attempt`, the run ends: a success, the last
/// allowed attempt, or a failure that the condition refused.
pub open spec fn stops<T, E, C: Fn(&E) -> bool>(
    config: RetryConfig<C>,
    attempt: int,
    outcome: Result<T, E>,
) -> bool {
    match outcome {
        Ok(_) => true,
        Err(e) => attempt + 1 >= config.max_attempts || condition_gives(config.retry_condition, e, false),
    }
}

/// `run` holds the outcomes of the invocations of one retry run, in order:
/// every outcome but the last lets the run go on, and the last one ends it.
pub open spec fn is_run<T, E, C: Fn(&E) -> bool>(config: RetryConfig<C>, run: Seq<Result<T, E>>) -> bool {
    &&& run.len() >= 1
    &&& forall|i: int| 0 <= i < run.len() - 1 ==> continues(config, i, #[trigger] run[i])
    &&& stops(config, run.len() - 1, run.last())
}

/// Every outcome of `run` is one that `operation` may return when handed the
/// number of its invocation, counted from 0.
pub open spec fn produced_by<T, E, Op: FnMut(usize) -> Result<T, E>>(operation: Op, run: Seq<Result<T, E>>) -> bool {
    forall|i: int| 0 <= i < run.len() ==> call_ensures(operation, (i as usize,), #[trigger] run[i])
}

/// `pause` may be called with attempt number `j` (from 1) and delay `d` only
/// where `d` is a delay that `strategy` gives for attempt `j` from `base`.
pub open spec fn pauses_follow<P: FnMut(usize, u64)>(pause: P, strategy: RetryStrategy, base: u64) -> bool {
    forall|j: usize, d: u64|
        1 <= j && admissible_delay(strategy, base, j as nat, d) ==> #[trigger] call_requires(pause, (j, d))
}

/// An operation that always fails, under a configuration without retry
/// condition, is invoked exactly `max_attempts` times, and the run ends on the
/// last of its failures.
pub proof fn lemma_always_failing_uses_every_attempt<T, E, C: Fn(&E) -> bool, Op: FnMut(usize) -> Result<T, E>>(
    config: RetryConfig<C>,
    operation: Op,
    run: Seq<Result<T, E>>,
)
    requires
        config.max_attempts >= 1,
        config.retry_condition.is_none(),
        forall|i: usize, o: Result<T, E>| #[trigger] call_ensures(operation, (i,), o) ==> o.is_err(),
        is_run(config, run),
        produced_by(operation, run),
    ensures
        run.len() == config.max_attempts,
        run.last().is_err(),
{
    let n = run.len() as int;
    assert(call_ensures(operation, ((n - 1) as usize,), run[n - 1]));
    if n >= 2 {
        assert(call_ensures(operation, ((n - 2) as usize,), run[n - 2]));
        assert(continues(config, n - 2, run[n - 2]));
    }
}

/// When the first invocation fails with `err` and the retry condition refuses
/// `err`, the operation is invoked once and the run ends on `err` unchanged.
pub proof fn lemma_refused_failure_stops_at_once<T, E, C: Fn(&E) -> bool, Op: FnMut(usize) -> Result<T, E>>(
    config: RetryConfig<C>,
    operation: Op,
    err: E,
    run: Seq<Result<T, E>>,
)
    requires
        config.retry_condition.is_some(),
        forall|verdict: bool| call_ensures(config.retry_condition.unwrap(), (&err,), verdict) ==> !verdict,
        forall|o: Result<T, E>| #[trigger] call_ensures(operation, (0usize,), o) ==> o == Err::<T, E>(err),
        is_run(config, run),
        produced_by(operation, run),
    ensures
        run.len() == 1,
        run.last() == Err::<T, E>(err),
{
    assert(call_ensures(operation, (0usize,), run[0]));
    if run.len() >= 2 {
        assert(continues(config, 0, run[0]));
    }
}

/// An operation whose first `k - 1` invocations fail and whose invocation
/// `k - 1` (counted from 0) succeeds, with `k` within `max_attempts` and no
/// retry condition, is invoked exactly `k` times and the run ends on that
/// success.
pub proof fn lemma_success_after_failures<T, E, C: Fn(&E) -> bool, Op: FnMut(usize) -> Result<T, E>>(
    config: RetryConfig<C>,
    operation: Op,
    k: usize,
    run: Seq<Result<T, E>>,
)
    requires
        1 <= k <= config.max_attempts,
        config.retry_condition.is_none(),
        forall|i: usize, o: Result<T, E>| i < k - 1 && #[trigger] call_ensures(operation, (i,), o) ==> o.is_err(),
        forall|o: Result<T, E>| #[trigger] call_ensures(operation, ((k - 1) as usize,), o) ==> o.is_ok(),
        is_run(config, run),
        produced_by(operation, run),
    ensures
        run.len() == k,
        run.last().is_ok(),
        call_ensures(operation, ((k - 1) as usize,), run.last()),
{
    let n = run.len() as int;
    assert(call_ensures(operation, ((n - 1) as usize,), run[n - 1]));
    if n > k {
        assert(call_ensures(operation, ((k - 1) as usize,), run[k - 1]));
        assert(continues(config, k - 1, run[k - 1]));
    }
}

impl<C> RetryConfig<C> {
    /// Decides what follows the failure `err` of attempt `attempt` (counted from 0)
    /// under `strategy`: give up when no attempt is left or when the retry
    /// condition refuses `err`, else wait the strategy's delay for `attempt + 1`.
    /// The condition is consulted only when attempts are left.
    pub fn after_failure<E>(&self, strategy: RetryStrategy, attempt: usize, err: &E) -> (r: RetryStep) where
        C: Fn(&E) -> bool,
        requires
            condition_callable::<E, C>(self.retry_condition),
        ensures
            attempt + 1 >= self.max_attempts ==> r == RetryStep::GiveUp,
            attempt + 1 < self.max_attempts ==> match r {
                RetryStep::GiveUp => condition_gives(self.retry_condition, *err, false),
                RetryStep::RetryAfter(d) => {
                    &&& condition_gives(self.retry_condition, *err, true)
                    &&& admissible_delay(strategy, self.delay, (attempt + 1) as nat, d)
                },
            },
    {
        if attempt >= self.max_attempts || self.max_attempts - attempt <= 1 {
            return RetryStep::GiveUp;
        }
        let retryable = match &self.retry_condition {
            Some(condition) => condition(err),
            None => true,
        };
        if retryable {
            RetryStep::RetryAfter(strategy.calculate_delay(self.delay, attempt + 1))
        } else {
            RetryStep::GiveUp
        }
    }
}

fn retry_using<T, E, C, Op, P>(
    operation: Op,
    retry_config: &RetryConfig<C>,
    strategy: RetryStrategy,
    pause: P,
) -> (r: Result<T, E>) where
    Op: FnMut(usize) -> Result<T, E>,
    C: Fn(&E) -> bool,
    P: FnMut(usize, u64),

    requires
        forall|i: usize| call_requires(operation, (i,)),
        pauses_follow(pause, strategy, retry_config.delay),
        condition_callable::<E, C>(retry_config.retry_condition),
    ensures
        exists|run: Seq<Result<T, E>>|
            #[trigger] is_run(*retry_config, run) && produced_by(operation, run) && r == run.last(),
{
    let mut invoke = operation;
    let mut pause = pause;
    let mut attempt: usize = 0;
    let ghost mut run: Seq<Result<T, E>> = Seq::empty();
    loop
        invariant
            invoke == operation,
            forall|i: usize| call_requires(operation, (i,)),
            pauses_follow(pause, strategy, retry_config.delay),
            condition_callable::<E, C>(retry_config.retry_condition),
            attempt == 0 || attempt < retry_config.max_attempts,
            run.len() == attempt,
            produced_by(operation, run),
            forall|i: int| 0 <= i < run.len() ==> continues(*retry_config, i, #[trigger] run[i]),
        decreases retry_config.max_attempts - attempt,
    {
        let outcome = invoke(attempt);
        let ghost seen = outcome;
        let ghost next_run = run.push(seen);
        assert(next_run.last() == seen);
        assert(forall|i: int| 0 <= i < run.len() ==> next_run[i] == run[i]);
        assert(produced_by(operation, next_run));
        match outcome {
            Ok(output) => {
                assert(is_run(*retry_config, next_run));
                assert(next_run.last() == Ok::<T, E>(output));
                return Ok(output);
            },
            Err(err) => {
                match retry_config.after_failure(strategy, attempt, &err) {
                    RetryStep::GiveUp => {
                        assert(is_run(*retry_config, next_run));
                        assert(next_run.last() == Err::<T, E>(err));
                        return Err(err);
                    },
                    RetryStep::RetryAfter(delay) => {
                        pause(attempt + 1, delay);
                        proof {
                            run = next_run;
                        }
                        attempt = attempt + 1;
                    },
                }
            },
        }
    }
}

/// Invokes `operation` until it succeeds, attempts run out, or the retry
/// condition refuses a failure, and returns the last outcome.
///
/// `operation` is handed the number of the invocation, counted from 0.
/// Between attempts `pause` is handed the number of the next attempt and the
/// delay that the configured strategy gives for it (in milliseconds); the
/// caller sleeps or yields there.
/// The outcomes seen form a run: every one but the last is a failure that
/// left attempts and that the condition accepted.
pub fn retry<T, E, C, Op, P>(operation: Op, retry_config: &RetryConfig<C>, pause: P) -> (r: Result<T, E>) where
    Op: FnMut(usize) -> Result<T, E>,
    C: Fn(&E) -> bool,
    P: FnMut(usize, u64),

    requires
        forall|i: usize| call_requires(operation, (i,)),
        pauses_follow(pause, retry_config.strategy, retry_config.delay),
        condition_callable::<E, C>(retry_config.retry_condition),
    ensures
        exists|run: Seq<Result<T, E>>|
            #[trigger] is_run(*retry_config, run) && produced_by(operation, run) && r == run.last(),
{
    retry_using(operation, retry_config, retry_config.strategy, pause)
}

/// `retry` with the delays of exponential backoff, whatever strategy the
/// configuration names: `pause` is handed the base delay, then twice as long
/// at each attempt, saturating at `u64::MAX`.
pub fn retry_with_exponential_backoff<T, E, C, Op, P>(
    operation: Op,
    retry_config: &RetryConfig<C>,
    pause: P,
) -> (r: Result<T, E>) where
    Op: FnMut(usize) -> Result<T, E>,
    C: Fn(&E) -> bool,
    P: FnMut(usize, u64),

    requires
        forall|i: usize| call_requires(operation, (i,)),
        pauses_follow(pause, RetryStrategy::ExponentialBackoff, retry_config.delay),
        condition_callable::<E, C>(retry_config.retry_condition),
    ensures
        exists|run: Seq<Result<T, E>>|
            #[trigger] is_run(*retry_config, run) && produced_by(operation, run) && r == run.last(),
{
    retry_using(operation, retry_config, RetryStrategy::ExponentialBackoff, pause)
}

} // verus!
