//! Shared facts about filtered rows, used by the in-memory relations to show
//! that deleting rows preserves their schema invariants.

use vstd::prelude::*;

verus! {

/// Every row of a filtered table is a row of the original table.
pub proof fn lemma_filter_members<T>(s: Seq<T>, pred: spec_fn(T) -> bool)
    ensures
        forall|i: int|
            0 <= i < s.filter(pred).len() ==> exists|k: int|
                0 <= k < s.len() && #[trigger] s.filter(pred)[i] == s[k],
    decreases s.len(),
{
    reveal(Seq::filter);
    if s.len() > 0 {
        let sub = s.drop_last();
        lemma_filter_members(sub, pred);
        let f = s.filter(pred);
        assert forall|i: int| 0 <= i < f.len() implies exists|k: int|
            0 <= k < s.len() && #[trigger] f[i] == s[k] by {
            if pred(s.last()) && i == f.len() - 1 {
                assert(f[i] == s[s.len() - 1]);
            } else {
                assert(f[i] == sub.filter(pred)[i]);
                let k = choose|k: int| 0 <= k < sub.len() && sub.filter(pred)[i] == sub[k];
                assert(f[i] == s[k]);
            }
        }
    }
}

/// Filtering a table whose rows are pairwise distinct yields rows that are
/// pairwise distinct: no row is duplicated by a deletion.
pub proof fn lemma_filter_distinct<T>(s: Seq<T>, pred: spec_fn(T) -> bool)
    requires
        forall|a: int, b: int| 0 <= a < b < s.len() ==> #[trigger] s[a] != #[trigger] s[b],
    ensures
        forall|i: int, j: int|
            0 <= i < j < s.filter(pred).len() ==> #[trigger] s.filter(pred)[i] != #[trigger] s.filter(
                pred,
            )[j],
    decreases s.len(),
{
    reveal(Seq::filter);
    if s.len() > 0 {
        let sub = s.drop_last();
        lemma_filter_distinct(sub, pred);
        lemma_filter_members(sub, pred);
        let f = s.filter(pred);
        assert forall|i: int, j: int| 0 <= i < j < f.len() implies f[i] != f[j] by {
            if pred(s.last()) && j == f.len() - 1 {
                assert(f[j] == s[s.len() - 1]);
                assert(f[i] == sub.filter(pred)[i]);
                let k = choose|k: int| 0 <= k < sub.len() && sub.filter(pred)[i] == sub[k];
                assert(s[k] != s[s.len() - 1]);
            } else {
                assert(f[i] == sub.filter(pred)[i]);
                assert(f[j] == sub.filter(pred)[j]);
            }
        }
    }
}

} // verus!
