//! Reconnection policy for a dropped tick stream: capped exponential backoff
//! with a bounded number of attempts, reset by a successful connection.

use vstd::prelude::*;

verus! {

pub open spec fn pow2(n: nat) -> nat
    decreases n,
{
    if n == 0 {
        1
    } else {
        2 * pow2((n - 1) as nat)
    }
}

/// Delay before the attempt that follows `k` failed ones: `base * 2^k`,
/// capped at `max`.
pub open spec fn backoff_delay(base: u64, max: u64, k: nat) -> int {
    if base * pow2(k) < max {
        base * pow2(k)
    } else {
        max as int
    }
}

#[derive(Debug, Clone, Copy, PartialEq, Eq)]
pub struct Backoff {
    pub base_ms: u64,
    pub max_ms: u64,
    pub max_attempts: u32,
    /// Reconnection attempts made since the last successful connection.
    pub attempts: u32,
}

impl Backoff {
    pub fn new(base_ms: u64, max_ms: u64, max_attempts: u32) -> (r: Self)
        ensures
            r == (Backoff { base_ms, max_ms, max_attempts, attempts: 0 }),
    {
        Backoff { base_ms, max_ms, max_attempts, attempts: 0 }
    }

    /// Milliseconds to wait before the next reconnection attempt, or `None`
    /// once every attempt has been spent; the stream is then given up.
    pub fn next_delay(&mut self) -> (r: Option<u64>)
        ensures
            old(self).attempts >= old(self).max_attempts ==> r is None && *final(self) == *old(self),
            old(self).attempts < old(self).max_attempts ==> {
                &&& r is Some
                &&& r->0 == backoff_delay(old(self).base_ms, old(self).max_ms, old(self).attempts as nat)
                &&& *final(self) == (Backoff { attempts: (old(self).attempts + 1) as u32, ..*old(self) })
            },
    {
        if self.attempts >= self.max_attempts {
            return None;
        }
        let max = self.max_ms;
        let mut d: u64 = if self.base_ms < max { self.base_ms } else { max };
        let mut i: u32 = 0;
        assert(self.base_ms * pow2(0) == self.base_ms) by {
            assert(pow2(0) == 1);
        }
        while i < self.attempts
            invariant
                i <= self.attempts,
                d == backoff_delay(self.base_ms, max, i as nat),
            decreases self.attempts - i,
        {
            proof {
                let x = self.base_ms * pow2(i as nat);
                assert(self.base_ms * pow2((i + 1) as nat) == 2 * x) by (nonlinear_arith)
                    requires
                        pow2((i + 1) as nat) == 2 * pow2(i as nat),
                        x == self.base_ms * pow2(i as nat),
                ;
                assert(x >= 0) by (nonlinear_arith)
                    requires
                        x == self.base_ms * pow2(i as nat),
                ;
            }
            if d > max / 2 {
                d = max;
            } else {
                d = 2 * d;
            }
            i = i + 1;
        }
        self.attempts = self.attempts + 1;
        Some(d)
    }

    /// Forgets past attempts after a successful connection.
    pub fn reset(&mut self)
        ensures
            *final(self) == (Backoff { attempts: 0, ..*old(self) }),
    {
        self.attempts = 0;
    }
}

} // verus!
