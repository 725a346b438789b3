//! Subsequences: what it means for one sequence to be obtained from another by
//! leaving elements out, and the few facts about it that the pipeline needs.

use vstd::prelude::*;

verus! {

/// `picks` names, for each element of `sub` in turn, a position of `full` that
/// holds the same element, and the positions strictly increase.
pub open spec fn selects<A>(picks: Seq<int>, sub: Seq<A>, full: Seq<A>) -> bool {
    &&& picks.len() == sub.len()
    &&& forall|i: int| 0 <= i < picks.len() ==> 0 <= #[trigger] picks[i] < full.len()
    &&& forall|i: int, j: int| 0 <= i < j < picks.len() ==> #[trigger] picks[i] < #[trigger] picks[j]
    &&& forall|i: int| 0 <= i < picks.len() ==> #[trigger] sub[i] == full[picks[i]]
}

/// `sub` is `full` with some elements left out: nothing added, nothing reordered.
pub open spec fn is_subsequence<A>(sub: Seq<A>, full: Seq<A>) -> bool {
    exists|picks: Seq<int>| selects(picks, sub, full)
}

/// The elements of `items` whose mark in `keep` is `true`, in the order of
/// `items`. Marks beyond the end of `items` count for nothing.
pub open spec fn picked<A>(items: Seq<A>, keep: Seq<bool>) -> Seq<A>
    decreases keep.len(),
{
    if keep.len() == 0 {
        Seq::empty()
    } else {
        let earlier = picked(items, keep.drop_last());
        if keep.len() <= items.len() && keep.last() {
            earlier.push(items[keep.len() - 1])
        } else {
            earlier
        }
    }
}

/// The empty sequence is a subsequence of every sequence.
pub proof fn lemma_empty_is_subsequence<A>(full: Seq<A>)
    ensures
        is_subsequence(Seq::<A>::empty(), full),
{
    assert(selects(Seq::<int>::empty(), Seq::<A>::empty(), full));
}

/// A subsequence of a prefix is a subsequence of every longer prefix.
pub proof fn lemma_subsequence_of_longer_prefix<A>(sub: Seq<A>, full: Seq<A>, n: int, m: int)
    requires
        0 <= n <= m <= full.len(),
        is_subsequence(sub, full.take(n)),
    ensures
        is_subsequence(sub, full.take(m)),
{
    let picks = choose|picks: Seq<int>| selects(picks, sub, full.take(n));
    assert(selects(picks, sub, full.take(m))) by {
        assert forall|i: int| 0 <= i < picks.len() implies #[trigger] sub[i] == full.take(m)[picks[i]] by {
            assert(sub[i] == full.take(n)[picks[i]]);
        }
    }
}

/// A subsequence of the first `n` elements, followed by the element at
/// position `n`, is a subsequence of the first `n + 1` elements.
pub proof fn lemma_subsequence_push<A>(sub: Seq<A>, full: Seq<A>, n: int)
    requires
        0 <= n < full.len(),
        is_subsequence(sub, full.take(n)),
    ensures
        is_subsequence(sub.push(full[n]), full.take(n + 1)),
{
    let picks = choose|picks: Seq<int>| selects(picks, sub, full.take(n));
    let longer = picks.push(n);
    assert(selects(longer, sub.push(full[n]), full.take(n + 1))) by {
        assert forall|i: int| 0 <= i < longer.len() implies 0 <= #[trigger] longer[i] < full.take(
            n + 1,
        ).len() by {
            if i < picks.len() {
                assert(0 <= picks[i] < full.take(n).len());
            }
        }
        assert forall|i: int, j: int| 0 <= i < j < longer.len() implies #[trigger] longer[i]
            < #[trigger] longer[j] by {
            assert(0 <= picks[i] < full.take(n).len());
            if j < picks.len() {
                assert(picks[i] < picks[j]);
            }
        }
        assert forall|i: int| 0 <= i < longer.len() implies #[trigger] sub.push(full[n])[i]
            == full.take(n + 1)[longer[i]] by {
            if i < picks.len() {
                assert(0 <= picks[i] < full.take(n).len());
                assert(sub[i] == full.take(n)[picks[i]]);
            }
        }
    }
}

/// Picking elements by their marks leaves elements out and does nothing else:
/// what is picked from the first `keep.len()` elements is a subsequence of them.
pub proof fn lemma_picked_is_subsequence_of_prefix<A>(items: Seq<A>, keep: Seq<bool>)
    requires
        keep.len() <= items.len(),
    ensures
        is_subsequence(picked(items, keep), items.take(keep.len() as int)),
    decreases keep.len(),
{
    if keep.len() == 0 {
        lemma_empty_is_subsequence(items.take(0));
    } else {
        let n = keep.len() - 1;
        lemma_picked_is_subsequence_of_prefix(items, keep.drop_last());
        if keep.last() {
            lemma_subsequence_push(picked(items, keep.drop_last()), items, n);
        } else {
            lemma_subsequence_of_longer_prefix(picked(items, keep.drop_last()), items, n, n + 1);
        }
    }
}

/// What is picked from a sequence, one mark per element, is a subsequence of it.
pub proof fn lemma_picked_is_subsequence<A>(items: Seq<A>, keep: Seq<bool>)
    requires
        keep.len() == items.len(),
    ensures
        is_subsequence(picked(items, keep), items),
{
    lemma_picked_is_subsequence_of_prefix(items, keep);
    assert(items.take(keep.len() as int) =~= items);
}

} // verus!
