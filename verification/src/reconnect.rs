//! Exponential reconnect for the tray's control-socket client. Uses the same
//! arithmetic the daemon uses for crash-retry rather than growing a second
//! backoff curve.

use vstd::prelude::*;

use crate::backoff::BackoffConfig;
use crate::machine;

verus! {

/// Tracks reconnect attempts and hands back the next delay.
#[derive(Debug, Clone)]
pub struct Reconnector {
    backoff: BackoffConfig,
    attempt: u32,
}

impl Reconnector {
    /// The backoff curve in use.
    pub closed spec fn curve(self) -> BackoffConfig {
        self.backoff
    }

    /// Delays handed out since the start or the last reset.
    pub closed spec fn attempts(self) -> u32 {
        self.attempt
    }

    /// A reconnector using the given backoff curve.
    pub fn new(backoff: BackoffConfig) -> (r: Self)
        ensures
            r.curve() == backoff,
            r.attempts() == 0,
    {
        Reconnector { backoff, attempt: 0 }
    }

    /// Delay in milliseconds before the next attempt; advances the attempt
    /// counter.
    pub fn next_delay(&mut self) -> (r: u64)
        ensures
            r == old(self).curve().delay(old(self).attempts() as nat),
            final(self).curve() == old(self).curve(),
            final(self).attempts() == machine::one_more(old(self).attempts()),
    {
        let delay: u64 = self.backoff.delay_ms(self.attempt);
        self.attempt = self.attempt.saturating_add(1);
        delay
    }

    /// A connection succeeded: the next disconnect starts over at the shortest
    /// delay.
    pub fn reset(&mut self)
        ensures
            final(self).curve() == old(self).curve(),
            final(self).attempts() == 0,
    {
        self.attempt = 0;
    }
}

impl Default for Reconnector {
    fn default() -> (r: Self)
        ensures
            r.curve() == (BackoffConfig {
                base_ms: 1000,
                cap_ms: 30_000,
                budget: 5,
                reset_after_s: 60,
            }),
            r.attempts() == 0,
    {
        Reconnector::new(BackoffConfig::default())
    }
}

/// Waits never get shorter from one attempt to the next, and after a reset the
/// next wait is the shortest.
pub proof fn waits_grow_until_reset(curve: BackoffConfig, attempt: u32)
    ensures
        curve.delay(attempt as nat) <= curve.delay(machine::one_more(attempt) as nat),
        curve.delay(0) <= curve.delay(attempt as nat),
{
    curve.delay_monotonic(attempt as nat, machine::one_more(attempt) as nat);
    curve.delay_monotonic(0, attempt as nat);
}

} // verus!
