//! The delay between one rejected attempt and the next.

use vstd::prelude::*;

verus! {

/// Two to the power `n`.
pub open spec fn spec_pow2(n: nat) -> nat
    decreases n,
{
    if n == 0 {
        1
    } else {
        2 * spec_pow2((n - 1) as nat)
    }
}

/// The delay before the retry with index `attempt_index`: the base delay doubled once
/// for every earlier retry, and never more than the maximum.
pub open spec fn spec_delay(base_delay: u64, max_delay: u64, attempt_index: nat) -> int {
    if base_delay * spec_pow2(attempt_index) >= max_delay {
        max_delay as int
    } else {
        base_delay * spec_pow2(attempt_index)
    }
}

pub proof fn lemma_pow2_monotonic(i: nat, j: nat)
    requires
        i <= j,
    ensures
        1 <= spec_pow2(i) <= spec_pow2(j),
    decreases j,
{
    if i < j {
        lemma_pow2_monotonic(i, (j - 1) as nat);
    } else if i > 0 {
        lemma_pow2_monotonic((i - 1) as nat, (j - 1) as nat);
    }
}

/// Successive delays never decrease and never exceed the maximum.
pub proof fn lemma_delay_monotonic(base_delay: u64, max_delay: u64, i: nat, j: nat)
    requires
        i <= j,
    ensures
        spec_delay(base_delay, max_delay, i) <= spec_delay(base_delay, max_delay, j) <= max_delay,
{
    lemma_pow2_monotonic(i, j);
    assert(base_delay * spec_pow2(i) <= base_delay * spec_pow2(j)) by (nonlinear_arith)
        requires
            spec_pow2(i) <= spec_pow2(j),
    ;
}

/// The parameters of exponential backoff, in milliseconds.
#[derive(Debug, Clone, Copy, PartialEq, Eq, Structural)]
pub struct Backoff {
    pub base_delay: u64,
    pub max_delay: u64,
}

impl Backoff {
    /// The delay before the retry with index `attempt_index`.
    pub fn delay(&self, attempt_index: u32) -> (delay: u64)
        ensures
            delay == spec_delay(self.base_delay, self.max_delay, attempt_index as nat),
    {
        if self.base_delay == 0 {
            assert(self.base_delay * spec_pow2(attempt_index as nat) == 0) by (nonlinear_arith)
                requires
                    self.base_delay == 0,
            ;
            return 0;
        }
        let mut delay: u64 = self.base_delay;
        let mut k: u32 = 0;
        assert(self.base_delay * spec_pow2(0) == self.base_delay) by (nonlinear_arith)
            requires
                spec_pow2(0) == 1,
        ;
        while k < attempt_index
            invariant
                k <= attempt_index,
                delay == self.base_delay * spec_pow2(k as nat),
                self.base_delay > 0,
            decreases attempt_index - k,
        {
            assert(self.base_delay * spec_pow2((k + 1) as nat) == 2 * delay) by (nonlinear_arith)
                requires
                    delay == self.base_delay * spec_pow2(k as nat),
                    spec_pow2((k + 1) as nat) == 2 * spec_pow2(k as nat),
            ;
            if delay >= self.max_delay || delay >= self.max_delay - delay {
                proof {
                    lemma_pow2_monotonic((k + 1) as nat, attempt_index as nat);
                    assert(self.base_delay * spec_pow2((k + 1) as nat) <= self.base_delay
                        * spec_pow2(attempt_index as nat)) by (nonlinear_arith)
                        requires
                            spec_pow2((k + 1) as nat) <= spec_pow2(attempt_index as nat),
                    ;
                }
                return self.max_delay;
            }
            delay = delay * 2;
            k = k + 1;
        }
        if delay >= self.max_delay {
            self.max_delay
        } else {
            delay
        }
    }
}

} // verus!
