//! Counters that go back to 0 past their largest value.

use vstd::prelude::*;

verus! {

/// The count that follows `n`.
pub open spec fn bumped(n: u64) -> u64 {
    if n == u64::MAX {
        0
    } else {
        (n + 1) as u64
    }
}

/// A step adds one, and leads from the largest count back to 0.
pub proof fn a_step_adds_one(n: u64)
    ensures
        n < u64::MAX ==> bumped(n) == n + 1,
        n == u64::MAX ==> bumped(n) == 0,
{
}

/// The count reached from `n` after `k` steps.
pub open spec fn counted_on(n: u64, k: nat) -> u64
    decreases k,
{
    if k == 0 {
        n
    } else {
        bumped(counted_on(n, (k - 1) as nat))
    }
}

proof fn counting_on_adds(n: u64, k: nat)
    ensures
        counted_on(n, k) == (n + k) % 0x1_0000_0000_0000_0000,
    decreases k,
{
    if k > 0 {
        counting_on_adds(n, (k - 1) as nat);
    }
}

/// A counter never gives the same number twice before it has gone through all of
/// them.
pub proof fn a_counter_repeats_only_after_a_full_round(n: u64, i: nat, j: nat)
    requires
        i < j,
        j - i <= u64::MAX,
    ensures
        counted_on(n, i) != counted_on(n, j),
{
    counting_on_adds(n, i);
    counting_on_adds(n, j);
}

} // verus!
