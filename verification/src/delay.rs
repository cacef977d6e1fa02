//! The delay strategies: five generators of unbounded sequences of
//! durations, and `jitter`, which randomizes a single duration.
//!
//! Every generator's pull operation always succeeds; stopping is the
//! caller's business. Exponential and Fibonacci grow without bound, so their
//! arithmetic is saturating: once a value would pass `u64::MAX` milliseconds
//! it stays at `u64::MAX`.

use vstd::arithmetic::div_mod::{lemma_div_is_ordered, lemma_div_multiples_vanish_fancy};
use vstd::arithmetic::mul::lemma_mul_inequality;
use vstd::arithmetic::power::{lemma_pow1, lemma_pow_increases, pow};
use vstd::prelude::*;

use crate::duration::Duration;
use crate::random::{draw_uniform, fresh_rng, random_fraction_bits};

verus! {

/// The product of two millisecond counts, saturating at `u64::MAX`: the
/// overflow policy of the growing strategies.
pub open spec fn sat_mul_u64(a: u64, b: u64) -> u64 {
    if a * b > u64::MAX {
        u64::MAX
    } else {
        (a * b) as u64
    }
}

/// The sum of two millisecond counts, saturating at `u64::MAX`: the overflow
/// policy of the growing strategies.
pub open spec fn sat_add_u64(a: u64, b: u64) -> u64 {
    if a + b > u64::MAX {
        u64::MAX
    } else {
        (a + b) as u64
    }
}

/// Each retry increases the delay since the last exponentially.
///
/// The one constructor argument is both the first delay in milliseconds and
/// the growth factor: a deliberate, documented sharp edge, so a large base
/// makes the second pull jump far (base 1000 pulls 1000, then 1_000_000).
#[derive(Debug)]
pub struct Exponential {
    pub base: u64,
    pub current: u64,
}

impl Exponential {
    /// Create a new `Exponential` using the given millisecond duration as
    /// the initial delay and as the growth factor.
    pub fn from_millis(base: u64) -> (s: Self)
        ensures
            s.base == base,
            s.current == base,
    {
        Exponential { base, current: base }
    }

    /// Return the current delay and multiply the stored delay by the base,
    /// saturating at `u64::MAX` milliseconds.
    pub fn next(&mut self) -> (d: Option<Duration>)
        ensures
            d == Some(Duration::spec_from_millis(old(self).current)),
            final(self).base == old(self).base,
            final(self).current == sat_mul_u64(old(self).current, old(self).base),
    {
        let duration = Duration::from_millis(self.current);
        self.current = match self.current.checked_mul(self.base) {
            Some(v) => v,
            None => u64::MAX,
        };
        Some(duration)
    }
}

/// The stored delay of an `Exponential` with the given base after `n` pulls:
/// the recurrence that `Exponential::next` steps through.
pub open spec fn exponential_millis_at(base: u64, n: nat) -> u64
    decreases n,
{
    if n == 0 {
        base
    } else {
        sat_mul_u64(exponential_millis_at(base, (n - 1) as nat), base)
    }
}

/// For a base `b`, the `n`-th pull of an `Exponential` (counting from one)
/// is exactly `b^n` milliseconds, as long as `b^n` still fits in a `u64`:
/// before the first saturation the sequence is the true power sequence.
pub proof fn lemma_exponential_pull_is_power(base: u64, n: nat)
    requires
        1 <= n,
        pow(base as int, n) <= u64::MAX,
    ensures
        exponential_millis_at(base, (n - 1) as nat) == pow(base as int, n),
    decreases n,
{
    reveal(pow);
    if n == 1 {
        lemma_pow1(base as int);
    } else {
        let prev = (n - 1) as nat;
        if base == 0 {
            assert(pow(0int, prev) == 0 * pow(0int, (prev - 1) as nat));
            lemma_exponential_pull_is_power(base, prev);
        } else {
            lemma_pow_increases(base as nat, prev, n);
            lemma_exponential_pull_is_power(base, prev);
            assert(pow(base as int, n) == base * pow(base as int, prev));
            assert(pow(base as int, prev) * base == base * pow(base as int, prev))
                by (nonlinear_arith);
        }
    }
}

/// Each retry uses a delay which is the sum of the two previous delays.
///
/// Depending on the problem at hand, a fibonacci delay strategy might
/// perform better and lead to better throughput than the `Exponential`
/// strategy, as reported for backoff under contention in mobile ad-hoc
/// network studies.
#[derive(Debug)]
pub struct Fibonacci {
    pub curr: u64,
    pub next: u64,
}

impl Fibonacci {
    /// Create a new `Fibonacci` using the given duration in milliseconds as
    /// both of the first two delays.
    pub fn from_millis(millis: u64) -> (s: Self)
        ensures
            s.curr == millis,
            s.next == millis,
    {
        Fibonacci { curr: millis, next: millis }
    }

    /// Return the current delay and advance the pair one step of the
    /// Fibonacci recurrence, saturating at `u64::MAX` milliseconds.
    pub fn next(&mut self) -> (d: Option<Duration>)
        ensures
            d == Some(Duration::spec_from_millis(old(self).curr)),
            final(self).curr == old(self).next,
            final(self).next == sat_add_u64(old(self).curr, old(self).next),
    {
        let next_next = self.curr.saturating_add(self.next);
        let duration = Duration::from_millis(self.curr);
        self.curr = self.next;
        self.next = next_next;
        Some(duration)
    }
}

/// Each retry uses a fixed delay.
#[derive(Debug)]
pub struct Fixed {
    pub duration: Duration,
}

impl Fixed {
    /// Create a new `Fixed` using the given duration in milliseconds.
    pub fn from_millis(millis: u64) -> (s: Self)
        ensures
            s.duration == Duration::spec_from_millis(millis),
            s.duration.wf(),
    {
        Fixed { duration: Duration::from_millis(millis) }
    }

    /// Return the fixed delay; the state never changes, so every pull of the
    /// same generator returns the same duration.
    pub fn next(&mut self) -> (d: Option<Duration>)
        ensures
            d == Some(old(self).duration),
            *final(self) == *old(self),
    {
        Some(self.duration)
    }
}

/// Each retry happens immediately without any delay.
#[derive(Debug)]
pub struct NoDelay;

impl NoDelay {
    /// Return the zero-length duration: every pull of `NoDelay` does.
    pub fn next(&mut self) -> (d: Option<Duration>)
        ensures
            d == Some(Duration::spec_zero()),
    {
        Some(Duration::zero())
    }
}

/// Each retry uses a duration randomly chosen from a range.
pub struct Range {
    pub minimum: u64,
    pub maximum: u64,
    pub rng: rand::rngs::ThreadRng,
}

impl Range {
    /// The bounds form a non-empty half-open interval of milliseconds.
    pub open spec fn wf(self) -> bool {
        self.minimum < self.maximum
    }

    /// Create a new `Range` between the given millisecond durations: pulls
    /// draw uniformly from `[minimum, maximum)`. An empty interval
    /// (`minimum >= maximum`) holds no value to draw, so construction fails
    /// with `None` exactly then.
    pub fn from_millis(minimum: u64, maximum: u64) -> (r: Option<Range>)
        ensures
            (r is Some) <==> minimum < maximum,
            r is Some ==> r->0.minimum == minimum && r->0.maximum == maximum && r->0.wf(),
    {
        if minimum < maximum {
            Some(Range { minimum, maximum, rng: fresh_rng() })
        } else {
            None
        }
    }

    /// Draw one fresh uniform sample from `[minimum, maximum)` milliseconds.
    /// The bounds never change; only the random source advances.
    pub fn next(&mut self) -> (d: Option<Duration>)
        requires
            old(self).wf(),
        ensures
            final(self).minimum == old(self).minimum,
            final(self).maximum == old(self).maximum,
            final(self).wf(),
            d is Some,
            exists|m: u64|
                old(self).minimum <= m < old(self).maximum && d == Some(
                    #[trigger] Duration::spec_from_millis(m),
                ),
    {
        let low = self.minimum;
        let high = self.maximum;
        let m = draw_uniform(&mut self.rng, low, high);
        let dur = Duration::from_millis(m);
        Some(dur)
    }
}

/// The denominator of the fractions that `jitter` scales by: the largest
/// 32-bit value, so a drawn numerator `k` stands for the fraction
/// `k / 4_294_967_295`, uniform over `[0, 1]`.
pub const FRACTION_DENOMINATOR: u32 = 4_294_967_295;

/// The ceiling of `v * numer / FRACTION_DENOMINATOR`.
pub open spec fn scaled_ceil(v: int, numer: int) -> int {
    (v * numer + (FRACTION_DENOMINATOR - 1)) / (FRACTION_DENOMINATOR as int)
}

/// The duration scaled by the fraction `numer / FRACTION_DENOMINATOR`, each
/// component rounded up on its own.
pub open spec fn spec_scaled(d: Duration, numer: u32) -> Duration {
    Duration {
        secs: scaled_ceil(d.secs as int, numer as int) as u64,
        nanos: scaled_ceil(d.nanos as int, numer as int) as u32,
    }
}

/// The ceiling of `v * k / d` computed as `(v * k + d - 1) / d` stays within
/// `[0, v]` whenever the fraction `k / d` is at most one.
proof fn lemma_scaled_ceil_bounds(v: int, k: int, d: int)
    requires
        0 <= v,
        0 <= k <= d,
        1 <= d,
    ensures
        0 <= (v * k + d - 1) / d <= v,
{
    lemma_mul_inequality(k, d, v);
    assert(k * v == v * k && d * v == v * d) by (nonlinear_arith);
    lemma_div_is_ordered(v * k + d - 1, v * d + d - 1, d);
    lemma_div_multiples_vanish_fancy(v, d - 1, d);
    assert(v * k >= 0) by (nonlinear_arith)
        requires
            0 <= v,
            0 <= k,
    ;
    lemma_div_is_ordered(0, v * k + d - 1, d);
}

/// Scale a duration to the fraction `numer / FRACTION_DENOMINATOR` of
/// itself, rounding the seconds and the nanoseconds up independently. The
/// independent rounding can leave a nanosecond part that naive scaling of
/// the whole duration as one real number would not produce: a known
/// quantization artifact, kept deliberately.
pub fn scaled_by_fraction(duration: Duration, numer: u32) -> (r: Duration)
    ensures
        r == spec_scaled(duration, numer),
        r.secs <= duration.secs,
        r.nanos <= duration.nanos,
        duration.wf() ==> r.wf(),
{
    proof {
        lemma_scaled_ceil_bounds(
            duration.secs as int,
            numer as int,
            FRACTION_DENOMINATOR as int,
        );
        lemma_scaled_ceil_bounds(
            duration.nanos as int,
            numer as int,
            FRACTION_DENOMINATOR as int,
        );
        assert((duration.secs as int) * (numer as int) <= (u64::MAX as int) * (
        FRACTION_DENOMINATOR as int)) by (nonlinear_arith)
            requires
                duration.secs <= u64::MAX,
                numer <= FRACTION_DENOMINATOR,
        ;
        assert((duration.nanos as int) * (numer as int) <= (u64::MAX as int) * (
        FRACTION_DENOMINATOR as int)) by (nonlinear_arith)
            requires
                duration.nanos <= u64::MAX,
                numer <= FRACTION_DENOMINATOR,
        ;
    }
    let denom: u128 = FRACTION_DENOMINATOR as u128;
    let secs: u64 = (((duration.secs as u128) * (numer as u128) + (denom - 1)) / denom) as u64;
    let nanos: u32 = (((duration.nanos as u128) * (numer as u128) + (denom - 1)) / denom) as u32;
    Duration { secs, nanos }
}

/// Apply full random jitter to a duration: shrink it to an independently
/// drawn uniform fraction of itself, to decorrelate simultaneous retries.
/// Whatever the draw, the result never exceeds the input in either
/// component, and it is the input scaled by some fraction.
pub fn jitter(duration: Duration) -> (r: Duration)
    ensures
        r.secs <= duration.secs,
        r.nanos <= duration.nanos,
        duration.wf() ==> r.wf(),
        exists|k: u32| r == #[trigger] spec_scaled(duration, k),
{
    let k = random_fraction_bits();
    scaled_by_fraction(duration, k)
}

} // verus!
