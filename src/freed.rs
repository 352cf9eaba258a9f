//! Cores freed during a block, and the order in which they are handed back
//! to the scheduler.
use vstd::prelude::*;

verus! {

/// The index of an availability core.
#[derive(Clone, Copy, Debug, PartialEq, Eq, Structural)]
pub struct CoreIndex(pub u32);

/// Why an availability core was freed.
#[derive(Clone, Copy, Debug, PartialEq, Eq, Structural)]
pub enum FreedReason {
    /// The bitfields show that the core's candidate is available.
    Concluded,
    /// The core's availability window elapsed.
    TimedOut,
}

/// Each core of `cores`, in order, paired with `reason`.
pub open spec fn tagged(cores: Seq<CoreIndex>, reason: FreedReason) -> Seq<(CoreIndex, FreedReason)> {
    cores.map_values(|c: CoreIndex| (c, reason))
}

/// The sequence handed to rescheduling: the concluded cores, then the timed-out
/// ones, each group in its own order.
pub open spec fn merged_freed(
    concluded: Seq<CoreIndex>,
    timed_out: Seq<CoreIndex>,
) -> Seq<(CoreIndex, FreedReason)> {
    tagged(concluded, FreedReason::Concluded) + tagged(timed_out, FreedReason::TimedOut)
}

fn push_tagged(out: &mut Vec<(CoreIndex, FreedReason)>, cores: &Vec<CoreIndex>, reason: FreedReason)
    ensures
        final(out)@ == old(out)@ + tagged(cores@, reason),
{
    let ghost start = out@;
    let mut i: usize = 0;
    while i < cores.len()
        invariant
            0 <= i <= cores@.len(),
            out@ == start + tagged(cores@.take(i as int), reason),
        decreases cores@.len() - i,
    {
        out.push((cores[i], reason));
        proof {
            assert(cores@.take(i + 1) =~= cores@.take(i as int).push(cores@[i as int]));
            assert(tagged(cores@.take(i + 1), reason) =~= tagged(cores@.take(i as int), reason).push(
                (cores@[i as int], reason),
            ));
        }
        i = i + 1;
    }
    proof {
        assert(cores@.take(i as int) =~= cores@);
    }
}

/// Tags the concluded cores and the timed-out cores with their reasons and
/// joins them, concluded first.
pub fn merge_freed_cores(concluded: &Vec<CoreIndex>, timed_out: &Vec<CoreIndex>) -> (r: Vec<(CoreIndex, FreedReason)>)
    ensures
        r@ == merged_freed(concluded@, timed_out@),
{
    let mut out: Vec<(CoreIndex, FreedReason)> = Vec::new();
    push_tagged(&mut out, concluded, FreedReason::Concluded);
    push_tagged(&mut out, timed_out, FreedReason::TimedOut);
    proof {
        assert(Seq::<(CoreIndex, FreedReason)>::empty() + tagged(concluded@, FreedReason::Concluded)
            =~= tagged(concluded@, FreedReason::Concluded));
    }
    out
}

/// Every concluded core comes before every timed-out core in the merged
/// sequence, and each group keeps its own order and its reason.
pub proof fn lemma_freed_order(concluded: Seq<CoreIndex>, timed_out: Seq<CoreIndex>)
    ensures
        merged_freed(concluded, timed_out).len() == concluded.len() + timed_out.len(),
        forall|i: int|
            0 <= i < concluded.len() ==> #[trigger] merged_freed(concluded, timed_out)[i] == (
                concluded[i],
                FreedReason::Concluded,
            ),
        forall|j: int|
            0 <= j < timed_out.len() ==> #[trigger] merged_freed(concluded, timed_out)[concluded.len()
                + j] == (timed_out[j], FreedReason::TimedOut),
{
}

} // verus!
