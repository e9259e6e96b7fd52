//! Exponential backoff for accept-loop error recovery.
use crate::clock::{duration_of_millis, millis};
use std::time::Duration;
use vstd::prelude::*;

verus! {

/// The largest exponent the delay grows to.
pub const MAX_EXPONENT: u32 = 10;

/// `2^n`.
pub open spec fn pow2(n: nat) -> nat
    decreases n,
{
    if n == 0 {
        1
    } else {
        2 * pow2((n - 1) as nat)
    }
}

/// The exponent used for a given attempt: the attempt, capped at ten.
pub open spec fn capped_exponent(attempt: nat) -> nat {
    if attempt < MAX_EXPONENT {
        attempt
    } else {
        MAX_EXPONENT as nat
    }
}

/// The delay in milliseconds for an attempt: `min(base * 2^min(attempt, 10), max)`.
pub open spec fn delay_ms(attempt: nat, base_ms: nat, max_ms: nat) -> nat {
    let d = base_ms * pow2(capped_exponent(attempt));
    if d < max_ms {
        d
    } else {
        max_ms
    }
}

/// The attempt number that follows `a`: one more, or zero once ten is reached.
pub open spec fn next_attempt(a: nat) -> nat {
    if a >= MAX_EXPONENT {
        0
    } else {
        a + 1
    }
}

proof fn lemma_pow2_monotone(a: nat, b: nat)
    requires
        a <= b,
    ensures
        1 <= pow2(a) <= pow2(b),
    decreases b,
{
    if b > a {
        lemma_pow2_monotone(a, (b - 1) as nat);
    } else {
        lemma_pow2_positive(a);
    }
}

proof fn lemma_pow2_positive(n: nat)
    ensures
        pow2(n) >= 1,
    decreases n,
{
    if n > 0 {
        lemma_pow2_positive((n - 1) as nat);
    }
}

proof fn lemma_pow2_bound(n: nat)
    requires
        n <= 10,
    ensures
        1 <= pow2(n) <= 1024,
        n < 10 ==> pow2(n) <= 512,
{
    reveal_with_fuel(pow2, 11);
    assert(pow2(9) == 512);
    assert(pow2(10) == 1024);
    if n < 10 {
        lemma_pow2_monotone(n, 9);
    } else {
        lemma_pow2_monotone(n, 10);
    }
}

/// The backoff delay in milliseconds for `attempt` (counted from zero).
pub fn backoff_delay_ms(attempt: u32, base_delay_ms: u64, max_delay_ms: u64) -> (r: u64)
    ensures
        r == delay_ms(attempt as nat, base_delay_ms as nat, max_delay_ms as nat),
{
    let e: u32 = if attempt < MAX_EXPONENT {
        attempt
    } else {
        MAX_EXPONENT
    };
    let mut factor: u64 = 1;
    let mut i: u32 = 0;
    while i < e
        invariant
            i <= e <= 10,
            e == capped_exponent(attempt as nat),
            factor == pow2(i as nat),
        decreases e - i,
    {
        proof {
            lemma_pow2_bound(i as nat);
        }
        factor = factor * 2;
        i = i + 1;
    }
    proof {
        lemma_pow2_bound(e as nat);
    }
    if base_delay_ms > max_delay_ms / factor {
        proof {
            assert(base_delay_ms * factor >= max_delay_ms) by (nonlinear_arith)
                requires
                    base_delay_ms > max_delay_ms / factor,
                    factor >= 1,
            ;
        }
        max_delay_ms
    } else {
        proof {
            assert(base_delay_ms * factor <= max_delay_ms) by (nonlinear_arith)
                requires
                    base_delay_ms <= max_delay_ms / factor,
                    factor >= 1,
            ;
        }
        let d = base_delay_ms * factor;
        if d < max_delay_ms {
            d
        } else {
            max_delay_ms
        }
    }
}

/// The delay before retrying after `attempt` failures: `min(base * 2^min(attempt, 10), max)` ms.
pub fn exponential_backoff(attempt: u32, base_delay_ms: u64, max_delay_ms: u64) -> (r: Duration)
    ensures
        r == duration_of_millis(
            delay_ms(attempt as nat, base_delay_ms as nat, max_delay_ms as nat) as u64,
        ),
{
    millis(backoff_delay_ms(attempt, base_delay_ms, max_delay_ms))
}

/// The attempt numbers cycle through zero to ten: after `k` delays from a fresh
/// counter the next delay uses attempt `k mod 11`.
pub proof fn lemma_attempts_cycle(k: nat)
    ensures
        next_attempt(k % 11) == (k + 1) % 11,
{
}

/// With a 100 ms base and a 5000 ms cap, the delays of one cycle are
/// 100, 200, 400, 800, 1600, 3200 and then 5000 for attempts six to ten.
pub proof fn lemma_accept_loop_delays(a: nat)
    requires
        a <= 10,
    ensures
        delay_ms(a, 100, 5000) == seq![100nat, 200, 400, 800, 1600, 3200, 5000, 5000, 5000, 5000, 5000][a as int],
{
    reveal_with_fuel(pow2, 11);
    if a >= 6 {
        assert(pow2(6) == 64);
        lemma_pow2_monotone(6, a);
    }
}

/// Counts consecutive failures and hands out growing delays.
///
/// The attempt number runs from zero to ten; the call that uses attempt ten
/// starts the count over.
pub struct BackoffCounter {
    counter: u32,
}

impl BackoffCounter {
    /// The attempt number the next delay will use.
    pub closed spec fn attempt(&self) -> nat {
        self.counter as nat
    }

    /// A counter with no failures recorded.
    pub fn new() -> (r: Self)
        ensures
            r.attempt() == 0,
    {
        BackoffCounter { counter: 0 }
    }

    /// The delay for the current attempt; moves on to the next attempt.
    pub fn next_delay(&mut self, base_delay_ms: u64, max_delay_ms: u64) -> (r: Duration)
        ensures
            r == duration_of_millis(
                delay_ms(old(self).attempt(), base_delay_ms as nat, max_delay_ms as nat) as u64,
            ),
            final(self).attempt() == next_attempt(old(self).attempt()),
            final(self).attempt() <= MAX_EXPONENT,
    {
        let attempt = self.counter;
        let delay = exponential_backoff(attempt, base_delay_ms, max_delay_ms);
        if attempt >= MAX_EXPONENT {
            self.counter = 0;
        } else {
            self.counter = attempt + 1;
        }
        delay
    }
}

impl Default for BackoffCounter {
    fn default() -> (r: Self)
        ensures
            r.attempt() == 0,
    {
        Self::new()
    }
}

} // verus!
