//! Specification helpers for the filtering transforms, and the laws they
//! obey.
//!
//! A filtering transform makes one decision per source element, in index
//! order: `Some` keeps a transformed value, `None` drops the element.
//! [`keep_somes`] turns such a decision sequence into the surviving values;
//! the laws below pin down how many survive and in what order.

use vstd::prelude::*;

verus! {

/// The values kept by a sequence of filtering decisions, in order: one
/// decision per source element, `Some` keeping a transformed value and
/// `None` dropping the element.
pub open spec fn keep_somes<T>(ds: Seq<Option<T>>) -> Seq<T>
    decreases ds.len(),
{
    if ds.len() == 0 {
        Seq::empty()
    } else {
        match ds.last() {
            Some(t) => keep_somes(ds.drop_last()).push(t),
            None => keep_somes(ds.drop_last()),
        }
    }
}

/// The number of `Some` decisions in a decision sequence.
pub open spec fn count_somes<T>(ds: Seq<Option<T>>) -> int
    decreases ds.len(),
{
    if ds.len() == 0 {
        0
    } else {
        count_somes(ds.drop_last()) + if ds.last() is Some {
            1int
        } else {
            0int
        }
    }
}

/// The positions of the `Some` decisions, in ascending order.
pub open spec fn kept_indices<T>(ds: Seq<Option<T>>) -> Seq<int>
    decreases ds.len(),
{
    if ds.len() == 0 {
        Seq::empty()
    } else {
        match ds.last() {
            Some(t) => kept_indices(ds.drop_last()).push(ds.len() - 1),
            None => kept_indices(ds.drop_last()),
        }
    }
}

/// Law: when the decisions are a function `fm` of the element alone —
/// decision `i` is `fm(s[i])` for the source elements `s` — the survivors
/// are exactly `s.filter_map(fm)`: the elements `fm` kept, transformed, in
/// their original order; and they are exactly as many as the elements on
/// which `fm` produces a value.
pub proof fn lemma_keep_somes_determined<T, T2>(
    s: Seq<T>,
    ds: Seq<Option<T2>>,
    fm: spec_fn(T) -> Option<T2>,
)
    requires
        ds.len() == s.len(),
        forall|i: int| 0 <= i < s.len() ==> ds[i] == fm(#[trigger] s[i]),
    ensures
        keep_somes(ds) == s.filter_map(fm),
        keep_somes(ds).len() == s.filter(|t: T| fm(t) is Some).len(),
    decreases s.len(),
{
    reveal(Seq::filter);
    if s.len() == 0 {
        assert(keep_somes(ds) =~= s.filter_map(fm));
        assert(s.filter(|t: T| fm(t) is Some) =~= Seq::<T>::empty());
    } else {
        lemma_keep_somes_determined(s.drop_last(), ds.drop_last(), fm);
        assert(ds.last() == fm(s.last()));
        assert(keep_somes(ds) =~= s.filter_map(fm));
    }
}

/// Law: a filtering transform keeps exactly as many elements as it made
/// `Some` decisions for — the length of `filter_map`'s result is the
/// number of elements the transform kept.
pub proof fn lemma_keep_somes_len<T>(ds: Seq<Option<T>>)
    ensures
        keep_somes(ds).len() == count_somes(ds),
    decreases ds.len(),
{
    if ds.len() > 0 {
        lemma_keep_somes_len(ds.drop_last());
    }
}

/// Law: a filtering transform keeps the surviving elements in their
/// original relative order. The kept positions are strictly ascending, and
/// the `j`-th survivor is exactly the value kept at the `j`-th of those
/// positions.
pub proof fn lemma_keep_somes_order<T>(ds: Seq<Option<T>>)
    ensures
        kept_indices(ds).len() == keep_somes(ds).len(),
        forall|j: int|
            0 <= j < kept_indices(ds).len() ==> 0 <= #[trigger] kept_indices(ds)[j] < ds.len(),
        forall|j1: int, j2: int|
            0 <= j1 < j2 < kept_indices(ds).len() ==> kept_indices(ds)[j1] < kept_indices(ds)[j2],
        forall|j: int|
            0 <= j < kept_indices(ds).len() ==> ds[kept_indices(ds)[j]] == Some(
                #[trigger] keep_somes(ds)[j],
            ),
    decreases ds.len(),
{
    if ds.len() > 0 {
        lemma_keep_somes_order(ds.drop_last());
        let pre = ds.drop_last();
        assert forall|j: int| 0 <= j < kept_indices(pre).len() implies ds[kept_indices(pre)[j]]
            == Some(#[trigger] keep_somes(pre)[j]) by {
            assert(ds[kept_indices(pre)[j]] == pre[kept_indices(pre)[j]]);
        }
    }
}

} // verus!
