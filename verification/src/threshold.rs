//! How many signatures a committee of a given size asks for.

use vstd::prelude::*;

verus! {

/// Two thirds of `signer_count`, rounded up.
pub open spec fn threshold_for(signer_count: nat) -> nat {
    (2 * signer_count + 2) / 3
}

/// `threshold_for(n)` is the ceiling of `2n/3`: the least `t` with
/// `3t >= 2n`. For a committee with at least one member it lies between 1
/// and the committee's size.
pub proof fn lemma_threshold_is_ceiling(signer_count: nat)
    ensures
        3 * threshold_for(signer_count) >= 2 * signer_count,
        3 * (threshold_for(signer_count) - 1) < 2 * signer_count,
        signer_count >= 1 ==> 1 <= threshold_for(signer_count) <= signer_count,
{
}

/// The threshold grows with the committee.
pub proof fn lemma_threshold_monotonic(smaller: nat, larger: nat)
    requires
        smaller <= larger,
    ensures
        threshold_for(smaller) <= threshold_for(larger),
{
}

/// The number of signatures a committee of `signer_count` members asks for.
pub fn calculate_threshold(signer_count: usize) -> (threshold: usize)
    ensures
        threshold == threshold_for(signer_count as nat),
        signer_count >= 1 ==> 1 <= threshold <= signer_count,
{
    signer_count - signer_count / 3
}

} // verus!
