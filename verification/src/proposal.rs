//! Proposal construction: greedy, order-preserving, first-fit packing of
//! candidate transactions under a total byte budget.
//!
//! Candidates are taken in the given order; a candidate is included only if
//! the bytes already accepted plus its own length stay within the budget. At
//! the first candidate that would exceed the budget the packing stops
//! entirely: no skip-and-continue, no reordering, no backfilling of smaller
//! candidates later in the list. This is a deliberate, cheap truncation
//! policy, not a bin-packing optimization.

use vstd::prelude::*;
use crate::data::bytes_seq_view;

verus! {

/// The total byte length of a list of transactions.
pub open spec fn total_bytes(txs: Seq<Seq<u8>>) -> int
    decreases txs.len(),
{
    if txs.len() == 0 {
        0
    } else {
        txs[0].len() + total_bytes(txs.drop_first())
    }
}

/// Greedy, order-preserving, first-fit packing: include transactions from
/// the front while they fit the remaining budget, and stop at the first one
/// that does not.
pub open spec fn spec_pack(txs: Seq<Seq<u8>>, budget: int) -> Seq<Seq<u8>>
    decreases txs.len(),
{
    if txs.len() == 0 {
        Seq::empty()
    } else if txs[0].len() <= budget {
        seq![txs[0]] + spec_pack(txs.drop_first(), budget - txs[0].len())
    } else {
        Seq::empty()
    }
}

/// The total byte length of a concatenation adds up.
proof fn lemma_total_bytes_cons(head: Seq<u8>, tail: Seq<Seq<u8>>)
    ensures
        total_bytes(seq![head] + tail) == head.len() + total_bytes(tail),
{
    let whole = seq![head] + tail;
    assert(whole[0] == head);
    assert(whole.drop_first() =~= tail);
}

/// The budget law of the packing: the result is a prefix of the candidate
/// list, its total byte length stays within the budget, and it is maximal —
/// either every candidate was taken, or the first candidate left out would
/// have pushed the total over the budget.
pub proof fn lemma_pack_budget_law(txs: Seq<Seq<u8>>, budget: int)
    requires
        budget >= 0,
    ensures
        spec_pack(txs, budget).len() <= txs.len(),
        spec_pack(txs, budget) == txs.take(spec_pack(txs, budget).len() as int),
        total_bytes(spec_pack(txs, budget)) <= budget,
        spec_pack(txs, budget).len() == txs.len() || (spec_pack(txs, budget).len() < txs.len()
            && total_bytes(spec_pack(txs, budget)) + txs[spec_pack(txs, budget).len() as int].len()
            > budget),
    decreases txs.len(),
{
    let packed = spec_pack(txs, budget);
    if txs.len() == 0 {
        assert(packed =~= txs.take(0));
    } else if txs[0].len() <= budget {
        let rest = txs.drop_first();
        let sub = spec_pack(rest, budget - txs[0].len());
        lemma_pack_budget_law(rest, budget - txs[0].len());
        lemma_total_bytes_cons(txs[0], sub);
        assert(packed.len() == sub.len() + 1);
        assert(forall|i: int| 0 <= i < sub.len() ==> sub[i] == rest.take(sub.len() as int)[i]);
        assert(forall|i: int| 1 <= i < packed.len() ==> packed[i] == sub[i - 1]);
        assert(packed =~= txs.take(sub.len() as int + 1));
        if sub.len() < rest.len() {
            assert(rest[sub.len() as int] == txs[packed.len() as int]);
        }
    } else {
        assert(packed =~= txs.take(0));
        assert(total_bytes(packed) == 0);
    }
}

/// Packs candidate transactions under `max_total_bytes`, greedily and in
/// order, stopping at the first candidate that would exceed the budget.
pub fn pack_transactions(txs: Vec<Vec<u8>>, max_total_bytes: u64) -> (r: Vec<Vec<u8>>)
    ensures
        bytes_seq_view(r@) == spec_pack(bytes_seq_view(txs@), max_total_bytes as int),
{
    let ghost all = bytes_seq_view(txs@);
    let mut rest = txs;
    let mut r: Vec<Vec<u8>> = Vec::new();
    let mut used: u64 = 0;
    let mut stopped = false;
    while rest.len() > 0 && !stopped
        invariant
            used <= max_total_bytes,
            !stopped ==> spec_pack(all, max_total_bytes as int) == bytes_seq_view(r@)
                + spec_pack(bytes_seq_view(rest@), max_total_bytes - used),
            stopped ==> spec_pack(all, max_total_bytes as int) == bytes_seq_view(r@),
        decreases rest@.len() + (if stopped { 0int } else { 1int }),
    {
        let ghost remaining = bytes_seq_view(rest@);
        let len0: usize = rest[0].len();
        if (len0 as u64) <= max_total_bytes - used {
            let tx = rest.remove(0);
            r.push(tx);
            proof {
                assert(remaining[0].len() <= max_total_bytes - used);
                assert(bytes_seq_view(rest@) =~= remaining.drop_first());
                assert(bytes_seq_view(r@) =~= bytes_seq_view(r@.drop_last()).push(tx@));
                assert(spec_pack(remaining, max_total_bytes - used) == seq![remaining[0]]
                    + spec_pack(remaining.drop_first(), max_total_bytes - used - remaining[0].len()));
                assert(bytes_seq_view(r@.drop_last()) + (seq![remaining[0]] + spec_pack(
                    remaining.drop_first(),
                    max_total_bytes - used - remaining[0].len(),
                )) =~= bytes_seq_view(r@) + spec_pack(
                    remaining.drop_first(),
                    max_total_bytes - used - remaining[0].len(),
                ));
            }
            used = used + (len0 as u64);
        } else {
            stopped = true;
            proof {
                assert(remaining[0].len() > max_total_bytes - used);
                assert(spec_pack(remaining, max_total_bytes - used) =~= Seq::<Seq<u8>>::empty());
                assert(bytes_seq_view(r@) + Seq::<Seq<u8>>::empty() =~= bytes_seq_view(r@));
            }
        }
    }
    proof {
        if !stopped {
            assert(bytes_seq_view(rest@).len() == 0);
            assert(spec_pack(bytes_seq_view(rest@), max_total_bytes - used)
                =~= Seq::<Seq<u8>>::empty());
            assert(bytes_seq_view(r@) + Seq::<Seq<u8>>::empty() =~= bytes_seq_view(r@));
        }
    }
    r
}

} // verus!
