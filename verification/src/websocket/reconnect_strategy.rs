//! Reconnect delay strategies used when the WebSocket connection drops.
//!
//! The default is [`ExponentialBackoff`]. Implement [`AISStreamReconnectStrategy`] on your own
//! type to control the delay between connection attempts yourself.

use core::time::Duration;
use vstd::arithmetic::power2::{lemma2_to64, lemma_pow2_unfold, pow2};
use vstd::prelude::*;

verus! {

/// The total number of nanoseconds in `d`, as `Duration::as_nanos` reports it. A duration is
/// determined by this number.
pub uninterp spec fn duration_nanos(d: Duration) -> u128;

/// The whole number of milliseconds in `d`.
pub open spec fn duration_millis(d: Duration) -> int {
    duration_nanos(d) as int / 1_000_000
}

/// Trusted: `Duration::as_millis` returns the total number of whole milliseconds in the
/// duration, that is its nanoseconds (named `duration_nanos`) divided by a million.
#[verifier::external_body]
fn millis_of(d: &Duration) -> (ms: u128)
    ensures
        ms == duration_millis(*d),
{
    d.as_millis()
}

/// Trusted: `Duration::from_millis(ms)` builds a duration of exactly `ms` milliseconds, with
/// no sub-millisecond part: `ms` million nanoseconds.
#[verifier::external_body]
fn duration_from_millis(ms: u64) -> (d: Duration)
    ensures
        duration_nanos(d) == ms * 1_000_000,
{
    Duration::from_millis(ms)
}

/// Trusted: `Duration` is `Copy`, and its `clone` returns the same duration.
pub assume_specification[ <Duration as Clone>::clone ](d: &Duration) -> (r: Duration)
    ensures
        r == *d,
;

/// Controls how long to wait before trying to reconnect after a disconnect.
pub trait AISStreamReconnectStrategy {
    /// Returns the delay before the next connection attempt.
    fn next_delay(&mut self) -> Duration;

    /// Called after a successful connection. Reset any internal attempt counter here.
    fn reset(&mut self);
}

/// The delay, in milliseconds, before attempt number `attempt` (counted from 0): the base delay
/// doubled once per earlier attempt, but never more than `max_ms`.
pub open spec fn backoff_delay_ms(base_ms: nat, max_ms: nat, attempt: nat) -> nat {
    let grown = base_ms * pow2(attempt);
    if grown < max_ms {
        grown
    } else {
        max_ms
    }
}

/// Waits 1s, then 2s, 4s, 8s, … capping at 30s between attempts.
#[derive(Debug, Clone)]
pub struct ExponentialBackoff {
    attempt: u32,
    base: Duration,
    max: Duration,
}

/// The whole milliseconds of `d` as the delays are computed: `as_millis` cast to `u64`.
pub open spec fn millis_u64(d: Duration) -> nat {
    (duration_millis(d) as u64) as nat
}

/// The abstract state of an [`ExponentialBackoff`]: how many delays were handed out since the
/// last reset, and the base and maximum delays in milliseconds.
pub struct BackoffView {
    pub attempt: nat,
    pub base_ms: nat,
    pub max_ms: nat,
}

impl View for ExponentialBackoff {
    type V = BackoffView;

    closed spec fn view(&self) -> BackoffView {
        BackoffView {
            attempt: self.attempt as nat,
            base_ms: millis_u64(self.base),
            max_ms: millis_u64(self.max),
        }
    }
}

impl ExponentialBackoff {
    /// The base delay the strategy was made with.
    pub closed spec fn base_delay(&self) -> Duration {
        self.base
    }

    /// The maximum delay the strategy was made with.
    pub closed spec fn max_delay(&self) -> Duration {
        self.max
    }

    /// The base and maximum delays hold `base_ms` and `max_ms` of the view.
    pub proof fn lemma_view_of_delays(&self)
        ensures
            self@.base_ms == millis_u64(self.base_delay()),
            self@.max_ms == millis_u64(self.max_delay()),
    {
    }
}

impl BackoffView {
    /// The delay, in milliseconds, that the next call of `next_delay` hands out.
    pub open spec fn current_delay_ms(self) -> nat {
        backoff_delay_ms(self.base_ms, self.max_ms, self.attempt)
    }

    /// The state after one more delay was handed out; the counter stops at `u32::MAX`.
    pub open spec fn advanced(self) -> BackoffView {
        BackoffView {
            attempt: if self.attempt < u32::MAX { self.attempt + 1 } else { self.attempt },
            base_ms: self.base_ms,
            max_ms: self.max_ms,
        }
    }

    /// The state after a successful connection: the counter starts over.
    pub open spec fn restarted(self) -> BackoffView {
        BackoffView { attempt: 0, base_ms: self.base_ms, max_ms: self.max_ms }
    }
}

/// `base_ms * 2^attempt`, capped at `max_ms`, computed without overflow.
fn capped_delay_ms(base_ms: u64, max_ms: u64, attempt: u32) -> (delay: u64)
    ensures
        delay == backoff_delay_ms(base_ms as nat, max_ms as nat, attempt as nat),
{
    proof {
        lemma2_to64();
        assert(base_ms * pow2(0) == base_ms) by (nonlinear_arith)
            requires pow2(0) == 1;
    }
    let mut delay: u64 = if base_ms < max_ms { base_ms } else { max_ms };
    let mut i: u32 = 0;
    while i < attempt && 0 < delay && delay < max_ms
        invariant
            i <= attempt,
            delay == backoff_delay_ms(base_ms as nat, max_ms as nat, i as nat),
        decreases attempt - i,
    {
        proof {
            lemma_pow2_unfold((i + 1) as nat);
            let p = pow2(i as nat);
            assert(base_ms * pow2((i + 1) as nat) == 2 * (base_ms * p)) by (nonlinear_arith)
                requires pow2((i + 1) as nat) == 2 * p;
        }
        if delay > max_ms - delay {
            delay = max_ms;
        } else {
            delay = delay + delay;
        }
        i = i + 1;
    }
    proof {
        if i < attempt {
            lemma_delay_reaches_cap(base_ms as nat, max_ms as nat, i as nat, attempt as nat);
        }
    }
    delay
}

/// Once the delay for attempt `i` is 0 or has reached the cap, every later attempt gets the
/// same delay.
proof fn lemma_delay_reaches_cap(base_ms: nat, max_ms: nat, i: nat, j: nat)
    requires
        i <= j,
        backoff_delay_ms(base_ms, max_ms, i) == 0 || backoff_delay_ms(base_ms, max_ms, i) >= max_ms,
    ensures
        backoff_delay_ms(base_ms, max_ms, j) == backoff_delay_ms(base_ms, max_ms, i),
    decreases j - i,
{
    if i < j {
        lemma_delay_doubles_until_max(base_ms, max_ms, i);
        lemma_delay_reaches_cap(base_ms, max_ms, i + 1, j);
    }
}

/// Each delay is the previous one doubled, capped at the maximum: the sequence of delays runs
/// base, 2·base, 4·base, … until it reaches the maximum, and stays there.
pub proof fn lemma_delay_doubles_until_max(base_ms: nat, max_ms: nat, attempt: nat)
    ensures
        backoff_delay_ms(base_ms, max_ms, attempt + 1) == if 2 * backoff_delay_ms(base_ms, max_ms, attempt) < max_ms {
            2 * backoff_delay_ms(base_ms, max_ms, attempt)
        } else {
            max_ms
        },
{
    lemma_pow2_unfold(attempt + 1);
    let p = pow2(attempt);
    assert(base_ms * pow2(attempt + 1) == 2 * (base_ms * p)) by (nonlinear_arith)
        requires pow2(attempt + 1) == 2 * p;
}

impl ExponentialBackoff {
    /// Create a backoff strategy with custom base and maximum delays.
    ///
    /// The delays are computed in whole milliseconds (`as_millis` cast to `u64`).
    pub fn new(base: Duration, max: Duration) -> (backoff: Self)
        ensures
            backoff@.attempt == 0,
            backoff.base_delay() == base,
            backoff.max_delay() == max,
            backoff@.base_ms == millis_u64(base),
            backoff@.max_ms == millis_u64(max),
    {
        ExponentialBackoff { attempt: 0, base, max }
    }
}

impl Default for ExponentialBackoff {
    /// One second base delay, thirty seconds at most.
    fn default() -> (backoff: Self)
        ensures
            backoff@ == (BackoffView { attempt: 0, base_ms: 1000, max_ms: 30000 }),
            duration_nanos(backoff.base_delay()) == 1_000_000_000,
            duration_nanos(backoff.max_delay()) == 30_000_000_000,
    {
        let base = duration_from_millis(1000);
        let max = duration_from_millis(30000);
        ExponentialBackoff { attempt: 0, base, max }
    }
}

impl AISStreamReconnectStrategy for ExponentialBackoff {
    /// Hands out `base * 2^attempt`, capped at the maximum, and counts the attempt.
    fn next_delay(&mut self) -> (delay: Duration)
        ensures
            duration_nanos(delay) == old(self)@.current_delay_ms() * 1_000_000,
            duration_millis(delay) == old(self)@.current_delay_ms(),
            final(self)@ == old(self)@.advanced(),
            final(self).base_delay() == old(self).base_delay(),
            final(self).max_delay() == old(self).max_delay(),
    {
        let base_ms = millis_of(&self.base) as u64;
        let max_ms = millis_of(&self.max) as u64;
        let delay_ms = capped_delay_ms(base_ms, max_ms, self.attempt);
        self.attempt = self.attempt.saturating_add(1);
        duration_from_millis(delay_ms)
    }

    /// Starts the doubling over from the base delay.
    fn reset(&mut self)
        ensures
            final(self)@ == old(self)@.restarted(),
            final(self).base_delay() == old(self).base_delay(),
            final(self).max_delay() == old(self).max_delay(),
    {
        self.attempt = 0;
    }
}

/// The delays never exceed the maximum, and never fall: each call of `next_delay` hands out at
/// least what the previous one did, until a reset.
pub proof fn lemma_delays_bounded_and_nondecreasing(state: BackoffView)
    ensures
        state.current_delay_ms() <= state.max_ms,
        state.current_delay_ms() <= state.advanced().current_delay_ms(),
{
    if state.attempt < u32::MAX {
        lemma_delay_doubles_until_max(state.base_ms, state.max_ms, state.attempt);
    }
}

/// After a reset the next delay is the base delay (or the maximum, when that is smaller),
/// however many attempts came before.
pub proof fn lemma_reset_starts_over(state: BackoffView)
    ensures
        state.restarted().current_delay_ms() == if state.base_ms < state.max_ms {
            state.base_ms
        } else {
            state.max_ms
        },
{
    lemma2_to64();
    assert(state.base_ms * pow2(0) == state.base_ms) by (nonlinear_arith)
        requires pow2(0) == 1;
}

/// Consecutive delays double until they reach the maximum, then stay there: from any state,
/// the next two delays `d1`, `d2` satisfy `d2 == min(2 * d1, max)`.
pub proof fn lemma_consecutive_delays_double(state: BackoffView)
    requires
        state.attempt < u32::MAX,
    ensures
        state.advanced().current_delay_ms() == if 2 * state.current_delay_ms() < state.max_ms {
            2 * state.current_delay_ms()
        } else {
            state.max_ms
        },
{
    lemma_delay_doubles_until_max(state.base_ms, state.max_ms, state.attempt);
}

} // verus!
