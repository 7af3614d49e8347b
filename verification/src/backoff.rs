//! Exponential-backoff computation for crash recovery.
//!
//! Pure arithmetic only; the daemon owns the timers.

use vstd::arithmetic::mul::*;
use vstd::arithmetic::power2::*;
use vstd::bits::*;
use vstd::prelude::*;

verus! {

/// Backoff tuning knobs; the values come from the supervisor config.
#[derive(Debug, Clone, Copy, PartialEq, Eq, Structural)]
pub struct BackoffConfig {
    /// First retry delay in milliseconds.
    pub base_ms: u64,
    /// Ceiling for the exponential delay in milliseconds.
    pub cap_ms: u64,
    /// Consecutive failures allowed before entering `Degraded`.
    pub budget: u32,
    /// A healthy run of this many seconds resets the failure budget.
    pub reset_after_s: u64,
}

impl Default for BackoffConfig {
    fn default() -> (r: Self)
        ensures
            r == (BackoffConfig { base_ms: 1000, cap_ms: 30_000, budget: 5, reset_after_s: 60 }),
    {
        BackoffConfig { base_ms: 1000, cap_ms: 30_000, budget: 5, reset_after_s: 60 }
    }
}

/// The smaller of two numbers.
pub open spec fn least(a: nat, b: nat) -> nat {
    if a <= b {
        a
    } else {
        b
    }
}

impl BackoffConfig {
    /// The delay before retry number `attempt`: the base doubled that many
    /// times, no more than the cap.
    pub open spec fn delay(self, attempt: nat) -> nat {
        least((self.base_ms * pow2(attempt)) as nat, self.cap_ms as nat)
    }

    /// Delay before retry number `attempt` (0-based): `base * 2^attempt`,
    /// capped at `cap_ms`.
    pub fn delay_ms(&self, attempt: u32) -> (r: u64)
        ensures
            r == self.delay(attempt as nat),
    {
        if self.base_ms == 0 {
            assert(self.base_ms * pow2(attempt as nat) == 0) by (nonlinear_arith)
                requires
                    self.base_ms == 0,
            ;
            return 0;
        }
        if attempt >= 64 {
            proof {
                lemma2_to64_rest();
                if attempt > 64 {
                    lemma_pow2_strictly_increases(64, attempt as nat);
                }
                lemma_mul_inequality(1, self.base_ms as int, pow2(attempt as nat) as int);
            }
            return self.cap_ms;
        }
        proof {
            lemma2_to64();
            lemma2_to64_rest();
            if attempt < 63 {
                lemma_pow2_strictly_increases(attempt as nat, 63);
            }
            lemma_pow2_pos(attempt as nat);
            lemma_u64_shl_is_mul(1, attempt as u64);
        }
        let factor: u64 = 1u64 << (attempt as u64);
        assert(self.base_ms * factor <= 0xffff_ffff_ffff_ffff * 0xffff_ffff_ffff_ffff)
            by (nonlinear_arith)
            requires
                self.base_ms <= 0xffff_ffff_ffff_ffff,
                factor <= 0xffff_ffff_ffff_ffff,
        ;
        let delay: u128 = (self.base_ms as u128) * (factor as u128);
        if delay <= self.cap_ms as u128 {
            delay as u64
        } else {
            self.cap_ms
        }
    }

    /// True once `consecutive_failures` has spent the retry budget and the
    /// supervisor must enter `Degraded` instead of retrying.
    pub fn budget_spent(&self, consecutive_failures: u32) -> (r: bool)
        ensures
            r == (consecutive_failures >= self.budget),
    {
        consecutive_failures >= self.budget
    }

    /// The delay never exceeds the cap and never drops below the smaller of
    /// base and cap.
    pub proof fn delay_bounded(self, attempt: nat)
        ensures
            self.delay(attempt) <= self.cap_ms,
            self.delay(attempt) >= least(self.base_ms as nat, self.cap_ms as nat),
    {
        lemma_pow2_pos(attempt);
        let b = self.base_ms as int;
        let p = pow2(attempt) as int;
        assert(b * p >= b) by (nonlinear_arith)
            requires
                p >= 1,
                b >= 0,
        ;
    }

    /// A later retry never waits less than an earlier one.
    pub proof fn delay_monotonic(self, earlier: nat, later: nat)
        requires
            earlier <= later,
        ensures
            self.delay(earlier) <= self.delay(later),
    {
        if earlier < later {
            lemma_pow2_strictly_increases(earlier, later);
            lemma_mul_inequality(
                pow2(earlier) as int,
                pow2(later) as int,
                self.base_ms as int,
            );
            let b = self.base_ms as int;
            let p = pow2(earlier) as int;
            let q = pow2(later) as int;
            assert(b * p == p * b && b * q == q * b) by (nonlinear_arith);
        }
    }
}

/// The first retry waits the base, and each further one twice as long as the one
/// before, until the cap.
pub proof fn each_delay_doubles(config: BackoffConfig, attempt: nat)
    ensures
        config.base_ms <= config.cap_ms ==> config.delay(0) == config.base_ms,
        config.base_ms > config.cap_ms ==> config.delay(0) == config.cap_ms,
        2 * config.delay(attempt) <= config.cap_ms ==> config.delay(attempt + 1) == 2
            * config.delay(attempt),
        2 * config.delay(attempt) > config.cap_ms ==> config.delay(attempt + 1) == config.cap_ms,
{
    lemma2_to64();
    lemma_pow2_unfold(attempt + 1);
    let b = config.base_ms as int;
    let p = pow2(attempt) as int;
    assert(pow2(attempt + 1) == 2 * p);
    assert(b * (2 * p) == 2 * (b * p)) by (nonlinear_arith);
    assert(b * p >= 0) by (nonlinear_arith)
        requires
            b >= 0,
            p >= 0,
    ;
    assert(b * 1 == b);
}

} // verus!
