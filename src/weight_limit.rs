//! Truncation of a candidate list to what fits in the block's weight budget.
use vstd::prelude::*;

verus! {

/// How many candidates out of `len` are kept when each costs `per_candidate`
/// and `remaining` weight is left in the block: all of them when weighting
/// is disabled (a cost of zero), else as many as fit, taken from the front.
pub open spec fn retained_count(len: nat, per_candidate: u64, remaining: u64) -> nat {
    if per_candidate == 0 {
        len
    } else {
        let fit = (remaining / per_candidate) as nat;
        if fit < len { fit } else { len }
    }
}

/// The weight still free in a block whose limit is `maximum` and of which
/// `consumed` is already used; never below zero.
pub open spec fn remaining_weight(maximum: u64, consumed: u64) -> u64 {
    if consumed <= maximum { (maximum - consumed) as u64 } else { 0 }
}

/// Computes the weight still free in the block.
pub fn block_weight_remaining(maximum: u64, consumed: u64) -> (r: u64)
    ensures
        r == remaining_weight(maximum, consumed),
{
    maximum.saturating_sub(consumed)
}

/// Keeps the first candidates that fit in `remaining` weight at a cost of
/// `per_candidate` each, in their existing order; with a cost of zero the list
/// is left as it is.
pub fn limit_backed_candidates<C>(candidates: &mut Vec<C>, per_candidate: u64, remaining: u64)
    ensures
        final(candidates)@ == old(candidates)@.take(
            retained_count(old(candidates)@.len(), per_candidate, remaining) as int,
        ),
{
    if per_candidate == 0 {
        proof {
            assert(old(candidates)@.take(old(candidates)@.len() as int) =~= old(candidates)@);
        }
        return;
    }
    let n: u64 = remaining / per_candidate;
    if (n as u128) < (candidates.len() as u128) {
        candidates.truncate(n as usize);
    } else {
        proof {
            assert(old(candidates)@.take(old(candidates)@.len() as int) =~= old(candidates)@);
        }
    }
}

/// With limiting off the candidates are kept as they are; with a positive
/// cost the kept candidates are a prefix of the proposed ones, as many as the
/// smaller of their number and the count that fits in the remaining weight.
pub proof fn lemma_limit_is_prefix<C>(candidates: Seq<C>, per_candidate: u64, remaining: u64)
    ensures
        per_candidate == 0 ==> candidates.take(
            retained_count(candidates.len(), per_candidate, remaining) as int,
        ) == candidates,
        per_candidate > 0 ==> ({
            let kept = candidates.take(
                retained_count(candidates.len(), per_candidate, remaining) as int,
            );
            &&& kept.len() == if candidates.len() < remaining / per_candidate {
                candidates.len() as int
            } else {
                (remaining / per_candidate) as int
            }
            &&& kept.is_prefix_of(candidates)
        }),
{
    if per_candidate == 0 {
        assert(candidates.take(candidates.len() as int) =~= candidates);
    }
}

} // verus!
