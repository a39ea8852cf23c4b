//! The type-changing vector: a growable sequence of storage cells with one
//! logical element type for the whole sequence at a time.

use core::marker::PhantomData;
use crate::select::{Select, Selector};
use crate::transform::keep_somes;
use vstd::pervasive::VecAdditionalExecFns;
use vstd::prelude::*;

verus! {

/// The capacity after growing a full buffer of capacity `c`: capacities
/// double, starting from one.
pub open spec fn spec_grown_capacity(c: usize) -> usize {
    if c == 0 {
        1usize
    } else if c <= usize::MAX / 2 {
        (2 * c) as usize
    } else {
        usize::MAX
    }
}

/// A vector of storage cells over the type universe `U`, every live cell
/// holding a value of the member type `T` at position `S`.
///
/// The vector views as the sequence of its live element values. Its
/// capacity counts the cells the backing buffer is good for without
/// growing; the type-changing operations (`change_to`, `map`, `filter_map`)
/// consume the vector and hand the same buffer back under a new member
/// type, never changing the capacity.
#[verifier::reject_recursive_types(T)]
#[verifier::reject_recursive_types(S)]
pub struct UnionVec<T, S, U: Select<S, Output = T>> where S: Selector {
    /// The live cells, in element order.
    data: Vec<U::Union>,
    /// The declared capacity, in cells; the backing buffer is kept at
    /// least this big.
    cap: usize,
    /// Marks the member type currently live in every cell.
    marker: PhantomData<(T, S)>,
}

impl<T, S: Selector, U: Select<S, Output = T>> View for UnionVec<T, S, U> {
    type V = Seq<T>;

    closed spec fn view(&self) -> Seq<T> {
        self.data@.map(|i: int, u: U::Union| U::value_of(u))
    }
}

impl<T, S: Selector, U: Select<S, Output = T>> Clone for UnionVec<T, S, U> where
    U::Union: Clone,
 {
    /// Clones the cell buffer. How a cell's member value clones is the
    /// member type's own business, so nothing is claimed of the cloned
    /// elements beyond their number.
    fn clone(&self) -> (r: Self)
        ensures
            r@.len() == self@.len(),
            r.spec_capacity() == self.spec_capacity(),
    {
        UnionVec { data: self.data.clone(), cap: self.cap, marker: PhantomData }
    }
}

impl<T, S: Selector, U: Select<S, Output = T>> Default for UnionVec<T, S, U> {
    /// The empty vector with no cells allocated.
    fn default() -> (v: Self)
        ensures
            v.wf(),
            v@ == Seq::<T>::empty(),
            v.spec_capacity() == 0,
    {
        UnionVec::new()
    }
}

impl<T, S: Selector, U: Select<S, Output = T>> UnionVec<T, S, U> {
    /// Every cell holds a live member value at position `S`, and the
    /// declared capacity covers the live cells.
    pub closed spec fn wf(&self) -> bool {
        &&& forall|i: int| 0 <= i < self.data@.len() ==> U::holds(#[trigger] self.data@[i])
        &&& self.data@.len() <= self.cap
    }

    /// The number of cells the vector can hold before it grows.
    pub closed spec fn spec_capacity(&self) -> usize {
        self.cap
    }

    /// Constructs an empty vector with no cells allocated.
    pub fn new() -> (v: Self)
        ensures
            v.wf(),
            v@ == Seq::<T>::empty(),
            v.spec_capacity() == 0,
    {
        let v = UnionVec { data: Vec::new(), cap: 0, marker: PhantomData };
        proof {
            assert(v@ =~= Seq::<T>::empty());
        }
        v
    }

    /// Constructs an empty vector whose buffer is good for `n` cells.
    pub fn with_capacity(n: usize) -> (v: Self)
        ensures
            v.wf(),
            v@ == Seq::<T>::empty(),
            v.spec_capacity() == n,
    {
        let v = UnionVec { data: Vec::with_capacity(n), cap: n, marker: PhantomData };
        proof {
            assert(v@ =~= Seq::<T>::empty());
        }
        v
    }

    /// Returns the number of elements held.
    pub fn len(&self) -> (n: usize)
        ensures
            n == self@.len(),
    {
        self.data.len()
    }

    /// Returns the number of cells the vector can hold before it grows.
    pub fn capacity(&self) -> (n: usize)
        ensures
            n == self.spec_capacity(),
    {
        self.cap
    }

    /// Appends `item` behind the last element. A full buffer first grows
    /// to the doubled capacity; otherwise the capacity is unchanged.
    pub fn push(&mut self, item: T)
        requires
            old(self).wf(),
        ensures
            final(self).wf(),
            final(self)@ == old(self)@.push(item),
            final(self).spec_capacity() == if old(self)@.len() < old(self).spec_capacity() {
                old(self).spec_capacity()
            } else {
                spec_grown_capacity(old(self).spec_capacity())
            },
    {
        if self.data.len() == self.cap {
            let new_cap: usize = if self.cap == 0 {
                1
            } else if self.cap <= usize::MAX / 2 {
                2 * self.cap
            } else {
                usize::MAX
            };
            if new_cap > self.data.len() {
                self.data.reserve(new_cap - self.data.len());
            }
            self.cap = new_cap;
        }
        let u = U::inject(item);
        self.data.push(u);
        proof {
            vstd::std_specs::vec::axiom_spec_len(&self.data);
            assert(self@ =~= old(self)@.push(item));
        }
    }

    /// Removes and returns the last element, or `None` when the vector is
    /// empty. The capacity never changes.
    pub fn pop(&mut self) -> (r: Option<T>)
        requires
            old(self).wf(),
        ensures
            final(self).wf(),
            final(self).spec_capacity() == old(self).spec_capacity(),
            old(self)@.len() > 0 ==> r == Some(old(self)@.last()) && final(self)@ == old(
                self,
            )@.drop_last(),
            old(self)@.len() == 0 ==> r == None::<T> && final(self)@ == old(self)@,
    {
        match self.data.pop() {
            Some(u) => {
                proof {
                    assert(U::holds(u));
                    assert(self@ =~= old(self)@.drop_last());
                }
                Some(U::project(u))
            },
            None => None,
        }
    }

    /// Inserts `item` at position `i`, shifting the elements behind it one
    /// cell towards the back. A full buffer first grows to the doubled
    /// capacity; otherwise the capacity is unchanged.
    pub fn insert(&mut self, i: usize, item: T)
        requires
            old(self).wf(),
            i <= old(self)@.len(),
        ensures
            final(self).wf(),
            final(self)@ == old(self)@.insert(i as int, item),
            final(self).spec_capacity() == if old(self)@.len() < old(self).spec_capacity() {
                old(self).spec_capacity()
            } else {
                spec_grown_capacity(old(self).spec_capacity())
            },
    {
        if self.data.len() == self.cap {
            let new_cap: usize = if self.cap == 0 {
                1
            } else if self.cap <= usize::MAX / 2 {
                2 * self.cap
            } else {
                usize::MAX
            };
            if new_cap > self.data.len() {
                self.data.reserve(new_cap - self.data.len());
            }
            self.cap = new_cap;
        }
        let u = U::inject(item);
        self.data.insert(i, u);
        proof {
            vstd::std_specs::vec::axiom_spec_len(&self.data);
            assert(self@ =~= old(self)@.insert(i as int, item));
        }
    }

    /// Removes and returns the element at position `i`, shifting the
    /// elements behind it one cell towards the front. The capacity never
    /// changes.
    pub fn remove(&mut self, i: usize) -> (t: T)
        requires
            old(self).wf(),
            i < old(self)@.len(),
        ensures
            final(self).wf(),
            t == old(self)@[i as int],
            final(self)@ == old(self)@.remove(i as int),
            final(self).spec_capacity() == old(self).spec_capacity(),
    {
        let u = self.data.remove(i);
        proof {
            assert(self@ =~= old(self)@.remove(i as int));
        }
        U::project(u)
    }

    /// Removes and returns the element at position `i`, moving the last
    /// element into its place instead of shifting. The capacity never
    /// changes.
    pub fn swap_remove(&mut self, i: usize) -> (t: T)
        requires
            old(self).wf(),
            i < old(self)@.len(),
        ensures
            final(self).wf(),
            t == old(self)@[i as int],
            final(self)@ == old(self)@.update(i as int, old(self)@.last()).drop_last(),
            final(self).spec_capacity() == old(self).spec_capacity(),
    {
        let u = self.data.swap_remove(i);
        proof {
            assert(self@ =~= old(self)@.update(i as int, old(self)@.last()).drop_last());
        }
        U::project(u)
    }

    /// Drops every element behind the first `n`, keeping a longer vector's
    /// front `n` elements; a vector of at most `n` elements is left alone.
    /// The capacity never changes.
    pub fn truncate(&mut self, n: usize)
        requires
            old(self).wf(),
        ensures
            final(self).wf(),
            final(self).spec_capacity() == old(self).spec_capacity(),
            n <= old(self)@.len() ==> final(self)@ == old(self)@.subrange(0, n as int),
            n > old(self)@.len() ==> final(self)@ == old(self)@,
    {
        self.data.truncate(n);
        proof {
            if n <= old(self)@.len() {
                assert(self@ =~= old(self)@.subrange(0, n as int));
            } else {
                assert(self@ =~= old(self)@);
            }
        }
    }

    /// Grows the buffer so that at least `additional` more elements fit
    /// before it must grow again. Neither the elements nor the length
    /// change.
    pub fn reserve(&mut self, additional: usize)
        requires
            old(self).wf(),
            old(self)@.len() + additional <= usize::MAX,
        ensures
            final(self).wf(),
            final(self)@ == old(self)@,
            final(self).spec_capacity() == if old(self)@.len() + additional > old(
                self,
            ).spec_capacity() {
                (old(self)@.len() + additional) as usize
            } else {
                old(self).spec_capacity()
            },
    {
        let want = self.data.len() + additional;
        if want > self.cap {
            self.data.reserve(additional);
            self.cap = want;
        }
        proof {
            assert(self@ =~= old(self)@);
        }
    }

    /// Removes and returns the elements of the range `[start, end)`, in
    /// order, closing the gap by shifting the elements behind the range
    /// towards the front. The capacity never changes.
    pub fn drain(&mut self, start: usize, end: usize) -> (r: Vec<T>)
        requires
            old(self).wf(),
            start <= end <= old(self)@.len(),
        ensures
            final(self).wf(),
            final(self).spec_capacity() == old(self).spec_capacity(),
            r@ == old(self)@.subrange(start as int, end as int),
            final(self)@ == old(self)@.subrange(0, start as int) + old(self)@.subrange(
                end as int,
                old(self)@.len() as int,
            ),
    {
        let mut r: Vec<T> = Vec::new();
        let mut k: usize = 0;
        let n = end - start;
        while k < n
            invariant
                n == end - start,
                start <= end <= old(self)@.len(),
                0 <= k <= n,
                self.cap == old(self).spec_capacity(),
                self.data@.len() == old(self)@.len() - k,
                forall|i: int|
                    0 <= i < self.data@.len() ==> U::holds(#[trigger] self.data@[i]),
                self@ =~= old(self)@.subrange(0, start as int) + old(self)@.subrange(
                    start + k,
                    old(self)@.len() as int,
                ),
                r@ =~= old(self)@.subrange(start as int, start + k),
            decreases n - k,
        {
            let ghost pre = *self;
            let u = self.data.remove(start);
            proof {
                assert(pre@[start as int] == U::value_of(pre.data@[start as int]));
                assert(pre@[start as int] == old(self)@[start + k]);
                assert forall|j: int| 0 <= j < self.data@.len() implies U::holds(
                    #[trigger] self.data@[j],
                ) && U::value_of(self.data@[j]) == pre@[if j < start {
                    j
                } else {
                    j + 1
                }] by {
                    assert(self.data@[j] == pre.data@.remove(start as int)[j]);
                    if j < start {
                        assert(self.data@[j] == pre.data@[j]);
                    } else {
                        assert(self.data@[j] == pre.data@[j + 1]);
                    }
                }
            }
            r.push(U::project(u));
            k += 1;
            proof {
                assert(self@ =~= old(self)@.subrange(0, start as int) + old(self)@.subrange(
                    start + k,
                    old(self)@.len() as int,
                ));
            }
        }
        proof {
            assert(r@ =~= old(self)@.subrange(start as int, end as int));
        }
        r
    }

    /// Borrows the element at position `i`.
    pub fn get(&self, i: usize) -> (t: &T)
        requires
            self.wf(),
            i < self@.len(),
        ensures
            *t == self@[i as int],
    {
        U::project_ref(&self.data[i])
    }

    /// Overwrites the element at position `i` with `item`; the old element
    /// is dropped. The length and the capacity never change.
    pub fn set(&mut self, i: usize, item: T)
        requires
            old(self).wf(),
            i < old(self)@.len(),
        ensures
            final(self).wf(),
            final(self)@ == old(self)@.update(i as int, item),
            final(self).spec_capacity() == old(self).spec_capacity(),
    {
        let u = U::inject(item);
        self.data.set(i, u);
        proof {
            assert(self@ =~= old(self)@.update(i as int, item));
        }
    }

    /// Borrows the live cells as a slice, in element order.
    pub fn as_cells(&self) -> (s: &[U::Union])
        requires
            self.wf(),
        ensures
            s@.len() == self@.len(),
            forall|i: int|
                0 <= i < s@.len() ==> U::holds(#[trigger] s@[i]) && U::value_of(s@[i]) == self@[i],
    {
        self.data.as_slice()
    }

    /// Consumes the vector and returns its live cells, every one holding a
    /// member value at position `S`.
    pub fn into_data(self) -> (d: Vec<U::Union>)
        requires
            self.wf(),
        ensures
            d@.len() == self@.len(),
            forall|i: int|
                0 <= i < d@.len() ==> U::holds(#[trigger] d@[i]) && U::value_of(d@[i]) == self@[i],
    {
        let UnionVec { data, cap: _, marker: _ } = self;
        data
    }

    /// Consumes the vector and moves its elements, in order, into a plain
    /// `Vec` of the current member type.
    pub fn into_vec(self) -> (v: Vec<T>)
        requires
            self.wf(),
        ensures
            v@ == self@,
    {
        let ghost orig: Seq<T> = self@;
        let UnionVec { data, cap: _, marker: _ } = self;
        let v = project_all::<T, S, U>(data, Vec::new());
        proof {
            assert(v@ =~= orig);
        }
        v
    }

    /// Drops every element, clearing the length to zero, and hands the
    /// buffer back retagged with the member type at position `S2`. The
    /// capacity never changes.
    pub fn change_to<S2: Selector>(self) -> (r: UnionVec<<U as Select<S2>>::Output, S2, U>) where
        U: Select<S2>,

        ensures
            r.wf(),
            r@ == Seq::<<U as Select<S2>>::Output>::empty(),
            r.spec_capacity() == self.spec_capacity(),
    {
        let UnionVec { mut data, cap, marker: _ } = self;
        data.clear();
        let r = UnionVec { data, cap, marker: PhantomData };
        proof {
            assert(r@ =~= Seq::<<U as Select<S2>>::Output>::empty());
        }
        r
    }

    /// Applies `f` to every element in index order, writing each result
    /// back into the element's own cell, and hands the buffer back retagged
    /// with the member type at position `S2`. The length and the capacity
    /// never change.
    pub fn map<S2: Selector, F>(self, f: F) -> (r: UnionVec<<U as Select<S2>>::Output, S2, U>) where
        U: Select<S2>,
        F: Fn(T) -> <U as Select<S2>>::Output,

        requires
            self.wf(),
            forall|i: int| 0 <= i < self@.len() ==> call_requires(f, (#[trigger] self@[i],)),
        ensures
            r.wf(),
            r@.len() == self@.len(),
            forall|i: int| 0 <= i < self@.len() ==> call_ensures(f, (self@[i],), #[trigger] r@[i]),
            r.spec_capacity() == self.spec_capacity(),
    {
        let ghost orig: Seq<T> = self@;
        let ghost cap0: usize = self.spec_capacity();
        proof {
            assert(orig.len() <= cap0);
        }
        let UnionVec { mut data, cap, marker: _ } = self;
        let mut rev: Vec<U::Union> = Vec::new();
        while data.len() > 0
            invariant
                data@.len() + rev@.len() == orig.len(),
                forall|i: int|
                    0 <= i < data@.len() ==> <U as Select<S>>::holds(#[trigger] data@[i]) && <U as Select<S>>::value_of(
                        data@[i],
                    ) == orig[i],
                forall|j: int|
                    0 <= j < rev@.len() ==> <U as Select<S>>::holds(#[trigger] rev@[j]) && <U as Select<S>>::value_of(rev@[j])
                        == orig[orig.len() - 1 - j],
            decreases data@.len(),
        {
            let u = match data.pop() {
                Some(u) => u,
                None => vstd::pervasive::unreached(),
            };
            rev.push(u);
        }
        while rev.len() > 0
            invariant
                data@.len() + rev@.len() == orig.len(),
                forall|j: int|
                    0 <= j < rev@.len() ==> <U as Select<S>>::holds(#[trigger] rev@[j]) && <U as Select<S>>::value_of(rev@[j])
                        == orig[orig.len() - 1 - j],
                forall|i: int|
                    0 <= i < data@.len() ==> <U as Select<S2>>::holds(#[trigger] data@[i])
                        && call_ensures(f, (orig[i],), <U as Select<S2>>::value_of(data@[i])),
                forall|i: int| 0 <= i < orig.len() ==> call_requires(f, (#[trigger] orig[i],)),
            decreases rev@.len(),
        {
            let u = match rev.pop() {
                Some(u) => u,
                None => vstd::pervasive::unreached(),
            };
            let t = <U as Select<S>>::project(u);
            let t2 = f(t);
            data.push(<U as Select<S2>>::inject(t2));
        }
        let r = UnionVec { data, cap, marker: PhantomData };
        proof {
            assert forall|i: int| 0 <= i < orig.len() implies call_ensures(
                f,
                (orig[i],),
                #[trigger] r@[i],
            ) by {
                assert(r@[i] == <U as Select<S2>>::value_of(r.data@[i]));
            }
        }
        r
    }

    /// Applies `f` to every element in index order, keeping the results
    /// `f` produced and dropping the elements it declined, compacted
    /// towards the front in their original relative order, and hands the
    /// buffer back retagged with the member type at position `S2`. The
    /// capacity never changes.
    pub fn filter_map<S2: Selector, F>(self, f: F) -> (r: UnionVec<
        <U as Select<S2>>::Output,
        S2,
        U,
    >) where
        U: Select<S2>,
        F: Fn(T) -> Option<<U as Select<S2>>::Output>,

        requires
            self.wf(),
            forall|i: int| 0 <= i < self@.len() ==> call_requires(f, (#[trigger] self@[i],)),
        ensures
            r.wf(),
            r.spec_capacity() == self.spec_capacity(),
            r@.len() <= self@.len(),
            exists|ds: Seq<Option<<U as Select<S2>>::Output>>|
                #![trigger keep_somes(ds)]
                ds.len() == self@.len() && (forall|i: int|
                    0 <= i < ds.len() ==> call_ensures(f, (self@[i],), #[trigger] ds[i])) && r@
                    == keep_somes(ds),
    {
        let ghost orig: Seq<T> = self@;
        let ghost cap0: usize = self.spec_capacity();
        proof {
            assert(orig.len() <= cap0);
        }
        let UnionVec { mut data, cap, marker: _ } = self;
        let mut rev: Vec<U::Union> = Vec::new();
        while data.len() > 0
            invariant
                data@.len() + rev@.len() == orig.len(),
                forall|i: int|
                    0 <= i < data@.len() ==> <U as Select<S>>::holds(#[trigger] data@[i]) && <U as Select<S>>::value_of(
                        data@[i],
                    ) == orig[i],
                forall|j: int|
                    0 <= j < rev@.len() ==> <U as Select<S>>::holds(#[trigger] rev@[j]) && <U as Select<S>>::value_of(rev@[j])
                        == orig[orig.len() - 1 - j],
            decreases data@.len(),
        {
            let u = match data.pop() {
                Some(u) => u,
                None => vstd::pervasive::unreached(),
            };
            rev.push(u);
        }
        let ghost mut ds: Seq<Option<<U as Select<S2>>::Output>> = Seq::empty();
        while rev.len() > 0
            invariant
                ds.len() + rev@.len() == orig.len(),
                data@.len() <= ds.len(),
                forall|j: int|
                    0 <= j < rev@.len() ==> <U as Select<S>>::holds(#[trigger] rev@[j]) && <U as Select<S>>::value_of(rev@[j])
                        == orig[orig.len() - 1 - j],
                forall|i: int| 0 <= i < ds.len() ==> call_ensures(f, (orig[i],), #[trigger] ds[i]),
                forall|i: int|
                    0 <= i < data@.len() ==> <U as Select<S2>>::holds(#[trigger] data@[i]),
                data@.map(|i: int, u: U::Union| <U as Select<S2>>::value_of(u)) == keep_somes(ds),
                forall|i: int| 0 <= i < orig.len() ==> call_requires(f, (#[trigger] orig[i],)),
            decreases rev@.len(),
        {
            let u = match rev.pop() {
                Some(u) => u,
                None => vstd::pervasive::unreached(),
            };
            let t = <U as Select<S>>::project(u);
            let ghost ds_pre = ds;
            let ghost data_pre = data@;
            match f(t) {
                Some(t2) => {
                    data.push(<U as Select<S2>>::inject(t2));
                    proof {
                        ds = ds.push(Some(t2));
                        assert(ds.drop_last() =~= ds_pre);
                        assert(data@.map(|i: int, u: U::Union| <U as Select<S2>>::value_of(u)) =~= keep_somes(
                            ds,
                        ));
                    }
                },
                None => {
                    proof {
                        ds = ds.push(None::<<U as Select<S2>>::Output>);
                        assert(ds.drop_last() =~= ds_pre);
                    }
                },
            }
        }
        let r = UnionVec { data, cap, marker: PhantomData };
        proof {
            assert(ds.len() == orig.len());
            assert(r@ == keep_somes(ds));
        }
        r
    }
}

/// Law: popping right after pushing returns the pushed value and restores
/// the elements: on any view `s`, `s.push(v)` is non-empty, its last
/// element is `v`, and dropping that last element gives `s` back. With
/// [`UnionVec::push`]'s and [`UnionVec::pop`]'s contracts this is the
/// round-trip law: push `v`, then pop, and `Some(v)` comes back with the
/// vector as it was.
pub proof fn lemma_push_pop_round_trip<T>(s: Seq<T>, v: T)
    ensures
        s.push(v).len() > 0,
        s.push(v).last() == v,
        s.push(v).drop_last() == s,
{
    assert(s.push(v).drop_last() =~= s);
}

/// Moves every cell's member value, in order, onto the end of `out`.
pub(crate) fn project_all<T, S: Selector, U: Select<S, Output = T>>(cells: Vec<U::Union>, out: Vec<T>) -> (r:
    Vec<T>)
    requires
        forall|i: int| 0 <= i < cells@.len() ==> U::holds(#[trigger] cells@[i]),
    ensures
        r@ == out@ + cells@.map(|i: int, u: U::Union| U::value_of(u)),
{
    let ghost vals: Seq<T> = cells@.map(|i: int, u: U::Union| U::value_of(u));
    let mut cells = cells;
    let mut rev: Vec<U::Union> = Vec::new();
    while cells.len() > 0
        invariant
            cells@.len() + rev@.len() == vals.len(),
            forall|i: int|
                0 <= i < cells@.len() ==> U::holds(#[trigger] cells@[i]) && U::value_of(cells@[i])
                    == vals[i],
            forall|j: int|
                0 <= j < rev@.len() ==> U::holds(#[trigger] rev@[j]) && U::value_of(rev@[j])
                    == vals[vals.len() - 1 - j],
        decreases cells@.len(),
    {
        let u = match cells.pop() {
            Some(u) => u,
            None => vstd::pervasive::unreached(),
        };
        rev.push(u);
    }
    let mut out = out;
    let ghost base: Seq<T> = out@;
    while rev.len() > 0
        invariant
            out@.len() == base.len() + vals.len() - rev@.len(),
            forall|j: int|
                0 <= j < rev@.len() ==> U::holds(#[trigger] rev@[j]) && U::value_of(rev@[j])
                    == vals[vals.len() - 1 - j],
            out@ =~= base + vals.subrange(0, vals.len() - rev@.len()),
        decreases rev@.len(),
    {
        let u = match rev.pop() {
            Some(u) => u,
            None => vstd::pervasive::unreached(),
        };
        out.push(U::project(u));
        proof {
            assert(out@ =~= base + vals.subrange(0, vals.len() - rev@.len()));
        }
    }
    proof {
        assert(out@ =~= base + vals);
    }
    out
}

} // verus!
