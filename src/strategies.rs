use vstd::arithmetic::mul::{lemma_mul_inequality, lemma_mul_is_distributive_add};
use vstd::arithmetic::power2::{lemma2_to64, lemma_pow2_pos, lemma_pow2_strictly_increases, lemma_pow2_unfold, pow2};
use vstd::prelude::*;

verus! {

/// Defines how the delay before a retry grows with the attempt number.
#[derive(Debug, Clone, Copy, PartialEq, Eq, Structural)]
pub enum RetryStrategy {
    /// The delay stays equal to the base delay.
    Linear,
    /// The delay doubles with each attempt; attempts 0 and 1 both wait the base delay.
    ExponentialBackoff,
    /// Exponential backoff moved by a random offset of at most
    /// `jitter_permille / 1000` times the base delay, in either direction.
    ExponentialBackoffWithJitter { jitter_permille: u64 },
    /// The delay follows the Fibonacci recurrence, seeded with the base delay at
    /// attempts 0 and 1.
    FibonacciBackoff,
    /// The delay is `base * coefficient * attempt`.
    ArithmeticProgression { coefficient: usize },
}

/// `x` held in a `u64`: negative values become 0, values too large become `u64::MAX`.
pub open spec fn clamp_u64(x: int) -> u64 {
    if x <= 0 {
        0
    } else if x >= u64::MAX {
        u64::MAX
    } else {
        x as u64
    }
}

/// The Fibonacci numbers seeded with 1 at indices 0 and 1.
pub open spec fn fib(n: nat) -> nat
    decreases n,
{
    if n < 2 {
        1
    } else {
        fib((n - 1) as nat) + fib((n - 2) as nat)
    }
}

/// `base` for attempt 0, `base * 2^(attempt-1)` after, saturated.
pub open spec fn exponential_delay(base: u64, attempt: nat) -> u64 {
    if attempt == 0 {
        base
    } else {
        clamp_u64(base * pow2((attempt - 1) as nat))
    }
}

/// `base * fib(attempt)`, saturated.
pub open spec fn fibonacci_delay(base: u64, attempt: nat) -> u64 {
    clamp_u64(base * fib(attempt))
}

/// `base * coefficient * attempt`, saturated.
pub open spec fn arithmetic_delay(base: u64, coefficient: nat, attempt: nat) -> u64 {
    clamp_u64(base * coefficient * attempt)
}

/// The largest distance that jitter moves a delay: `base * permille / 1000`.
pub open spec fn jitter_amount(base: u64, permille: u64) -> u64 {
    clamp_u64(base * permille / 1000)
}

/// A delay `exp` moved by `offset - amount`, clamped to the `u64` range.
pub open spec fn jittered(exp: u64, amount: u64, offset: int) -> u64 {
    clamp_u64(exp + offset - amount)
}

/// The delay of a strategy without randomness.
pub open spec fn fixed_delay(strategy: RetryStrategy, base: u64, attempt: nat) -> u64 {
    match strategy {
        RetryStrategy::Linear => base,
        RetryStrategy::ExponentialBackoff => exponential_delay(base, attempt),
        RetryStrategy::FibonacciBackoff => fibonacci_delay(base, attempt),
        RetryStrategy::ArithmeticProgression { coefficient } => arithmetic_delay(
            base,
            coefficient as nat,
            attempt,
        ),
        RetryStrategy::ExponentialBackoffWithJitter { .. } => exponential_delay(base, attempt),
    }
}

/// Whether `delay` is a delay that `strategy` may give for `attempt`: the fixed
/// value, or for jitter any value within the jitter amount of the exponential delay.
pub open spec fn admissible_delay(strategy: RetryStrategy, base: u64, attempt: nat, delay: u64) -> bool {
    match strategy {
        RetryStrategy::ExponentialBackoffWithJitter { jitter_permille } => {
            let exp = exponential_delay(base, attempt);
            let amount = jitter_amount(base, jitter_permille);
            &&& clamp_u64(exp - amount) <= delay
            &&& delay <= clamp_u64(exp + amount)
        },
        _ => delay == fixed_delay(strategy, base, attempt),
    }
}

/// The linear strategy waits the base delay whatever the attempt number.
pub proof fn lemma_linear_delay_is_constant(base: u64, attempt: nat, delay: u64)
    requires
        admissible_delay(RetryStrategy::Linear, base, attempt, delay),
    ensures
        delay == base,
{
}

/// Exponential backoff waits the base delay at attempt 0 and
/// `base * 2^(attempt-1)` after, or `u64::MAX` where that does not fit.
pub proof fn lemma_exponential_delay_doubles(base: u64, attempt: nat, delay: u64)
    requires
        admissible_delay(RetryStrategy::ExponentialBackoff, base, attempt, delay),
    ensures
        attempt == 0 ==> delay == base,
        attempt >= 1 && base * pow2((attempt - 1) as nat) <= u64::MAX ==> delay == base * pow2(
            (attempt - 1) as nat,
        ),
        attempt >= 1 && base * pow2((attempt - 1) as nat) > u64::MAX ==> delay == u64::MAX,
{
    if attempt >= 1 {
        lemma_pow2_pos((attempt - 1) as nat);
        assert(base * pow2((attempt - 1) as nat) >= 0) by (nonlinear_arith)
            requires
                base >= 0,
                pow2((attempt - 1) as nat) > 0,
        ;
    }
}

proof fn lemma_fib_positive(n: nat)
    ensures
        fib(n) >= 1,
    decreases n,
{
    if n >= 2 {
        lemma_fib_positive((n - 1) as nat);
        lemma_fib_positive((n - 2) as nat);
    }
}

proof fn lemma_fib_monotone(a: nat, b: nat)
    requires
        a <= b,
    ensures
        fib(a) <= fib(b),
    decreases b - a,
{
    if a < b {
        lemma_fib_monotone(a, (b - 1) as nat);
        if b >= 2 {
            lemma_fib_positive((b - 2) as nat);
        }
    }
}

/// Relies on rand::random_range: a value drawn from `0..=hi`, which is never empty.
#[verifier::external_body]
fn random_up_to(hi: u128) -> (r: u128)
    ensures
        r <= hi,
{
    rand::random_range(0..=hi)
}

/// The exponential delay for `attempt`, saturating at `u64::MAX`.
pub fn exponential(base: u64, attempt: usize) -> (r: u64)
    ensures
        r == exponential_delay(base, attempt as nat),
{
    if attempt == 0 {
        return base;
    }
    let mut d: u64 = base;
    let mut i: usize = 1;
    proof {
        lemma2_to64();
        assert(base * pow2(0) == base);
    }
    while i < attempt && d > 0 && d < u64::MAX
        invariant
            1 <= i <= attempt,
            d == clamp_u64(base * pow2((i - 1) as nat)),
        decreases attempt - i,
    {
        proof {
            lemma_pow2_unfold(i as nat);
            lemma_pow2_pos((i - 1) as nat);
            assert(base * pow2(i as nat) == 2 * (base * pow2((i - 1) as nat))) by (nonlinear_arith)
                requires
                    pow2(i as nat) == 2 * pow2((i - 1) as nat),
            ;
        }
        d = match d.checked_mul(2) {
            Some(x) => x,
            None => u64::MAX,
        };
        i = i + 1;
    }
    proof {
        let k = (i - 1) as nat;
        let n = (attempt - 1) as nat;
        lemma_pow2_pos(k);
        lemma_pow2_pos(n);
        if k < n {
            lemma_pow2_strictly_increases(k, n);
            lemma_mul_inequality(pow2(k) as int, pow2(n) as int, base as int);
            assert(base * pow2(k) <= base * pow2(n)) by (nonlinear_arith)
                requires
                    pow2(k) * base <= pow2(n) * base,
            ;
            if d == 0 {
                assert(base == 0) by (nonlinear_arith)
                    requires
                        base * pow2(k) <= 0,
                        pow2(k) > 0,
                        base >= 0,
                ;
                assert(base * pow2(n) == 0) by (nonlinear_arith)
                    requires
                        base == 0,
                ;
            }
        }
    }
    d
}

/// The Fibonacci-scaled delay for `attempt`, saturating at `u64::MAX`.
pub fn fibonacci(base: u64, attempt: usize) -> (r: u64)
    ensures
        r == fibonacci_delay(base, attempt as nat),
{
    proof {
        assert(fib(0) == 1 && fib(1) == 1);
        assert(base * fib(0) == base && base * fib(1) == base);
    }
    if attempt < 2 {
        return base;
    }
    let mut prev: u64 = base;
    let mut curr: u64 = base;
    let mut i: usize = 1;
    while i < attempt && curr > 0 && curr < u64::MAX
        invariant
            1 <= i <= attempt,
            prev == clamp_u64(base * fib((i - 1) as nat)),
            curr == clamp_u64(base * fib(i as nat)),
        decreases attempt - i,
    {
        proof {
            lemma_fib_monotone((i - 1) as nat, i as nat);
            lemma_mul_inequality(fib((i - 1) as nat) as int, fib(i as nat) as int, base as int);
            assert(fib((i + 1) as nat) == fib(i as nat) + fib((i - 1) as nat));
            lemma_mul_is_distributive_add(base as int, fib(i as nat) as int, fib((i - 1) as nat) as int);
            assert(base * fib((i - 1) as nat) <= base * fib(i as nat)) by (nonlinear_arith)
                requires
                    fib((i - 1) as nat) * base <= fib(i as nat) * base,
            ;
        }
        let next = prev.saturating_add(curr);
        prev = curr;
        curr = next;
        i = i + 1;
    }
    proof {
        let k = i as nat;
        let n = attempt as nat;
        lemma_fib_positive(k);
        lemma_fib_monotone(k, n);
        lemma_mul_inequality(fib(k) as int, fib(n) as int, base as int);
        assert(base * fib(k) <= base * fib(n)) by (nonlinear_arith)
            requires
                fib(k) * base <= fib(n) * base,
        ;
        if curr == 0 {
            assert(base == 0) by (nonlinear_arith)
                requires
                    base * fib(k) <= 0,
                    fib(k) >= 1,
                    base >= 0,
            ;
            assert(base * fib(n) == 0) by (nonlinear_arith)
                requires
                    base == 0,
            ;
        }
    }
    curr
}

/// `base * coefficient * attempt`, saturating at `u64::MAX`.
pub fn arithmetic(base: u64, coefficient: usize, attempt: usize) -> (r: u64)
    ensures
        r == arithmetic_delay(base, coefficient as nat, attempt as nat),
{
    let c = coefficient as u64;
    let a = attempt as u64;
    let scaled: u64 = match base.checked_mul(c) {
        Some(x) => x,
        None => u64::MAX,
    };
    let r: u64 = match scaled.checked_mul(a) {
        Some(x) => x,
        None => u64::MAX,
    };
    proof {
        if base * c > u64::MAX {
            if a >= 1 {
                assert(base * c * a >= base * c) by (nonlinear_arith)
                    requires
                        a >= 1,
                        base * c >= 0,
                ;
                assert(u64::MAX * a >= u64::MAX) by (nonlinear_arith)
                    requires
                        a >= 1,
                ;
            } else {
                assert(base * c * a == 0) by (nonlinear_arith)
                    requires
                        a == 0,
                ;
            }
        }
        assert(base * c * a >= 0) by (nonlinear_arith)
            requires
                base >= 0,
                c >= 0,
                a >= 0,
        ;
    }
    r
}

/// The jitter amount `base * permille / 1000`, saturating at `u64::MAX`.
pub fn jitter_span(base: u64, permille: u64) -> (r: u64)
    ensures
        r == jitter_amount(base, permille),
{
    proof {
        assert((base as int) * (permille as int) <= u64::MAX * u64::MAX) by (nonlinear_arith)
            requires
                0 <= base <= u64::MAX,
                0 <= permille <= u64::MAX,
        ;
        assert(u64::MAX * u64::MAX < u128::MAX) by (nonlinear_arith);
        assert((base as int) * (permille as int) >= 0) by (nonlinear_arith)
            requires
                base >= 0,
                permille >= 0,
        ;
    }
    let product: u128 = (base as u128) * (permille as u128);
    let scaled: u128 = product / 1000;
    if scaled > u64::MAX as u128 {
        u64::MAX
    } else {
        scaled as u64
    }
}

/// Moves the delay `exp` by `offset - amount`, where `offset` was drawn from
/// `0..=2*amount`, and clamps the result to the `u64` range.
pub fn apply_jitter(exp: u64, amount: u64, offset: u128) -> (r: u64)
    requires
        offset <= 2 * amount,
    ensures
        r == jittered(exp, amount, offset as int),
{
    let total: u128 = exp as u128 + offset;
    if total <= amount as u128 {
        0
    } else {
        let moved: u128 = total - amount as u128;
        if moved >= u64::MAX as u128 {
            u64::MAX
        } else {
            moved as u64
        }
    }
}

impl RetryStrategy {
    /// The delay to wait before attempt `attempt`, given the base delay.
    ///
    /// Deterministic for every strategy but jitter, whose delay is drawn at
    /// random within its bounds.
    pub fn calculate_delay(&self, base_delay: u64, attempt: usize) -> (r: u64)
        ensures
            admissible_delay(*self, base_delay, attempt as nat, r),
    {
        match self {
            RetryStrategy::Linear => base_delay,
            RetryStrategy::ExponentialBackoff => exponential(base_delay, attempt),
            RetryStrategy::FibonacciBackoff => fibonacci(base_delay, attempt),
            RetryStrategy::ArithmeticProgression { coefficient } => arithmetic(
                base_delay,
                *coefficient,
                attempt,
            ),
            RetryStrategy::ExponentialBackoffWithJitter { jitter_permille } => {
                let exp = exponential(base_delay, attempt);
                let amount = jitter_span(base_delay, *jitter_permille);
                let offset = random_up_to(2 * (amount as u128));
                apply_jitter(exp, amount, offset)
            },
        }
    }
}

} // verus!
