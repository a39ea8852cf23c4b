//! The full-featured type-changing vector: everything the core vector does,
//! plus by-value iteration and the alignment-gated handoff of the whole
//! buffer as a plain `Vec` of the current member type.

use core::marker::PhantomData;
use crate::select::{Select, Selector, TypeUnion};
use crate::transform::keep_somes;
use crate::unionvec::{spec_grown_capacity, UnionVec};
use vstd::prelude::*;

verus! {

/// True when a plain `Vec` of the member type `T` may take over the
/// universe `U`'s cell buffer: the cell alignment must be an even multiple
/// of the member's alignment.
pub open spec fn handoff_aligned<T, U: TypeUnion>() -> bool {
    crate::select::widest_align::<U>() % vstd::layout::align_of::<T>() == 0
}

/// A vector of storage cells over the type universe `U`, every live cell
/// holding a value of the member type `T` at position `S`.
///
/// This is the full-featured sibling of [`UnionVec`], which it builds on:
/// the same push/pop/retype state machine, extended with by-value
/// iteration ([`SelectVec::into_iter`]) and with the conversions
/// ([`SelectVec::try_to_vec`], [`SelectVec::try_to_vec_map`]) that hand
/// the whole buffer over as a plain `Vec` of the current member type when
/// the alignments are compatible.
#[verifier::reject_recursive_types(T)]
#[verifier::reject_recursive_types(S)]
pub struct SelectVec<T, S, U: Select<S, Output = T>> where S: Selector {
    /// The core type-changing vector holding the cells.
    inner: UnionVec<T, S, U>,
}

impl<T, S: Selector, U: Select<S, Output = T>> View for SelectVec<T, S, U> {
    type V = Seq<T>;

    closed spec fn view(&self) -> Seq<T> {
        self.inner@
    }
}

impl<T, S: Selector, U: Select<S, Output = T>> SelectVec<T, S, U> {
    /// Every cell holds a live member value at position `S`, and the
    /// declared capacity covers the live cells.
    pub closed spec fn wf(&self) -> bool {
        self.inner.wf()
    }

    /// The number of cells the vector can hold before it grows.
    pub closed spec fn spec_capacity(&self) -> usize {
        self.inner.spec_capacity()
    }

    /// Constructs an empty vector with no cells allocated.
    pub fn new() -> (v: Self)
        ensures
            v.wf(),
            v@ == Seq::<T>::empty(),
            v.spec_capacity() == 0,
    {
        SelectVec { inner: UnionVec::new() }
    }

    /// Constructs an empty vector whose buffer is good for `n` cells.
    pub fn with_capacity(n: usize) -> (v: Self)
        ensures
            v.wf(),
            v@ == Seq::<T>::empty(),
            v.spec_capacity() == n,
    {
        SelectVec { inner: UnionVec::with_capacity(n) }
    }

    /// Returns the position of the current member type in the universe,
    /// counted from zero.
    pub fn current_type(&self) -> (n: usize)
        ensures
            n as nat == S::spec_position(),
    {
        S::position()
    }

    /// Returns the number of elements held.
    pub fn len(&self) -> (n: usize)
        ensures
            n == self@.len(),
    {
        self.inner.len()
    }

    /// Returns the number of cells the vector can hold before it grows.
    pub fn capacity(&self) -> (n: usize)
        ensures
            n == self.spec_capacity(),
    {
        self.inner.capacity()
    }

    /// Appends `item` behind the last element. A full buffer first grows
    /// to the doubled capacity; otherwise the capacity is unchanged.
    pub fn push(&mut self, item: T)
        requires
            old(self).wf(),
        ensures
            final(self).wf(),
            final(self)@ == old(self)@.push(item),
            final(self).spec_capacity() == if old(self)@.len() < old(self).spec_capacity() {
                old(self).spec_capacity()
            } else {
                spec_grown_capacity(old(self).spec_capacity())
            },
    {
        self.inner.push(item);
    }

    /// Removes and returns the last element, or `None` when the vector is
    /// empty. The capacity never changes.
    pub fn pop(&mut self) -> (r: Option<T>)
        requires
            old(self).wf(),
        ensures
            final(self).wf(),
            final(self).spec_capacity() == old(self).spec_capacity(),
            old(self)@.len() > 0 ==> r == Some(old(self)@.last()) && final(self)@ == old(
                self,
            )@.drop_last(),
            old(self)@.len() == 0 ==> r == None::<T> && final(self)@ == old(self)@,
    {
        self.inner.pop()
    }

    /// Inserts `item` at position `i`, shifting the elements behind it one
    /// cell towards the back. A full buffer first grows to the doubled
    /// capacity; otherwise the capacity is unchanged.
    pub fn insert(&mut self, i: usize, item: T)
        requires
            old(self).wf(),
            i <= old(self)@.len(),
        ensures
            final(self).wf(),
            final(self)@ == old(self)@.insert(i as int, item),
            final(self).spec_capacity() == if old(self)@.len() < old(self).spec_capacity() {
                old(self).spec_capacity()
            } else {
                spec_grown_capacity(old(self).spec_capacity())
            },
    {
        self.inner.insert(i, item);
    }

    /// Removes and returns the element at position `i`, shifting the
    /// elements behind it one cell towards the front. The capacity never
    /// changes.
    pub fn remove(&mut self, i: usize) -> (t: T)
        requires
            old(self).wf(),
            i < old(self)@.len(),
        ensures
            final(self).wf(),
            t == old(self)@[i as int],
            final(self)@ == old(self)@.remove(i as int),
            final(self).spec_capacity() == old(self).spec_capacity(),
    {
        self.inner.remove(i)
    }

    /// Removes and returns the element at position `i`, moving the last
    /// element into its place instead of shifting. The capacity never
    /// changes.
    pub fn swap_remove(&mut self, i: usize) -> (t: T)
        requires
            old(self).wf(),
            i < old(self)@.len(),
        ensures
            final(self).wf(),
            t == old(self)@[i as int],
            final(self)@ == old(self)@.update(i as int, old(self)@.last()).drop_last(),
            final(self).spec_capacity() == old(self).spec_capacity(),
    {
        self.inner.swap_remove(i)
    }

    /// Drops every element behind the first `n`, keeping a longer vector's
    /// front `n` elements; a vector of at most `n` elements is left alone.
    /// The capacity never changes.
    pub fn truncate(&mut self, n: usize)
        requires
            old(self).wf(),
        ensures
            final(self).wf(),
            final(self).spec_capacity() == old(self).spec_capacity(),
            n <= old(self)@.len() ==> final(self)@ == old(self)@.subrange(0, n as int),
            n > old(self)@.len() ==> final(self)@ == old(self)@,
    {
        self.inner.truncate(n);
    }

    /// Grows the buffer so that at least `additional` more elements fit
    /// before it must grow again. Neither the elements nor the length
    /// change.
    pub fn reserve(&mut self, additional: usize)
        requires
            old(self).wf(),
            old(self)@.len() + additional <= usize::MAX,
        ensures
            final(self).wf(),
            final(self)@ == old(self)@,
            final(self).spec_capacity() == if old(self)@.len() + additional > old(
                self,
            ).spec_capacity() {
                (old(self)@.len() + additional) as usize
            } else {
                old(self).spec_capacity()
            },
    {
        self.inner.reserve(additional);
    }

    /// Removes and returns the elements of the range `[start, end)`, in
    /// order, closing the gap by shifting the elements behind the range
    /// towards the front. The capacity never changes.
    pub fn drain(&mut self, start: usize, end: usize) -> (r: Vec<T>)
        requires
            old(self).wf(),
            start <= end <= old(self)@.len(),
        ensures
            final(self).wf(),
            final(self).spec_capacity() == old(self).spec_capacity(),
            r@ == old(self)@.subrange(start as int, end as int),
            final(self)@ == old(self)@.subrange(0, start as int) + old(self)@.subrange(
                end as int,
                old(self)@.len() as int,
            ),
    {
        self.inner.drain(start, end)
    }

    /// Borrows the element at position `i`.
    pub fn get(&self, i: usize) -> (t: &T)
        requires
            self.wf(),
            i < self@.len(),
        ensures
            *t == self@[i as int],
    {
        self.inner.get(i)
    }

    /// Overwrites the element at position `i` with `item`; the old element
    /// is dropped. The length and the capacity never change.
    pub fn set(&mut self, i: usize, item: T)
        requires
            old(self).wf(),
            i < old(self)@.len(),
        ensures
            final(self).wf(),
            final(self)@ == old(self)@.update(i as int, item),
            final(self).spec_capacity() == old(self).spec_capacity(),
    {
        self.inner.set(i, item);
    }

    /// Borrows the vector's cells as a read-only window.
    pub fn as_select_slice(&self) -> (s: SelectSlice<T, S, U>)
        requires
            self.wf(),
        ensures
            s.wf(),
            s@ == self@,
    {
        let s = SelectSlice { data: self.inner.as_cells(), marker: PhantomData };
        proof {
            assert forall|i: int| 0 <= i < s@.len() implies s@[i] == self@[i] by {
                assert(s@[i] == U::value_of(s.data@[i]));
            }
            assert(s@ =~= self@);
        }
        s
    }

    /// Consumes the vector and returns its live cells, every one holding a
    /// member value at position `S`.
    pub fn into_data(self) -> (d: Vec<U::Union>)
        requires
            self.wf(),
        ensures
            d@.len() == self@.len(),
            forall|i: int|
                0 <= i < d@.len() ==> U::holds(#[trigger] d@[i]) && U::value_of(d@[i]) == self@[i],
    {
        self.inner.into_data()
    }

    /// Consumes the vector and returns a by-value cursor over its
    /// elements, front and back.
    pub fn into_iter(self) -> (it: IntoIter<T, S, U>)
        requires
            self.wf(),
        ensures
            it.wf(),
            it@ == self@,
    {
        let ghost v = self@;
        let data = self.inner.into_data();
        let it = IntoIter { data, marker: PhantomData };
        proof {
            assert(it@ =~= v);
        }
        it
    }

    /// Drops every element, clearing the length to zero, and hands the
    /// buffer back retagged with the member type at position `S2`. The
    /// capacity never changes.
    pub fn change_type<S2: Selector>(self) -> (r: SelectVec<<U as Select<S2>>::Output, S2, U>) where
        U: Select<S2>,

        ensures
            r.wf(),
            r@ == Seq::<<U as Select<S2>>::Output>::empty(),
            r.spec_capacity() == self.spec_capacity(),
    {
        SelectVec { inner: self.inner.change_to() }
    }

    /// Applies `f` to every element in index order, writing each result
    /// back into the element's own cell, and hands the buffer back retagged
    /// with the member type at position `S2`. The length and the capacity
    /// never change.
    pub fn map<S2: Selector, F>(self, f: F) -> (r: SelectVec<<U as Select<S2>>::Output, S2, U>) where
        U: Select<S2>,
        F: Fn(T) -> <U as Select<S2>>::Output,

        requires
            self.wf(),
            forall|i: int| 0 <= i < self@.len() ==> call_requires(f, (#[trigger] self@[i],)),
        ensures
            r.wf(),
            r@.len() == self@.len(),
            forall|i: int| 0 <= i < self@.len() ==> call_ensures(f, (self@[i],), #[trigger] r@[i]),
            r.spec_capacity() == self.spec_capacity(),
    {
        proof {
            assert(self@ == self.inner@);
        }
        SelectVec { inner: self.inner.map(f) }
    }

    /// Applies `f` to every element in index order, keeping the results
    /// `f` produced and dropping the elements it declined, compacted
    /// towards the front in their original relative order, and hands the
    /// buffer back retagged with the member type at position `S2`. The
    /// capacity never changes.
    pub fn maybe_map<S2: Selector, F>(self, f: F) -> (r: SelectVec<
        <U as Select<S2>>::Output,
        S2,
        U,
    >) where
        U: Select<S2>,
        F: Fn(T) -> Option<<U as Select<S2>>::Output>,

        requires
            self.wf(),
            forall|i: int| 0 <= i < self@.len() ==> call_requires(f, (#[trigger] self@[i],)),
        ensures
            r.wf(),
            r.spec_capacity() == self.spec_capacity(),
            r@.len() <= self@.len(),
            exists|ds: Seq<Option<<U as Select<S2>>::Output>>|
                #![trigger keep_somes(ds)]
                ds.len() == self@.len() && (forall|i: int|
                    0 <= i < ds.len() ==> call_ensures(f, (self@[i],), #[trigger] ds[i])) && r@
                    == keep_somes(ds),
    {
        proof {
            assert(self@ == self.inner@);
        }
        SelectVec { inner: self.inner.filter_map(f) }
    }

    /// Hands the whole buffer over as a plain `Vec` of the current member
    /// type `T`, in element order, when the cell alignment is an even
    /// multiple of `T`'s alignment; otherwise returns the vector untouched
    /// as the error. The returned `Vec`'s buffer is sized by what the cell
    /// buffer's bytes are good for in elements of `T`.
    pub fn try_to_vec(self) -> (r: Result<Vec<T>, Self>)
        requires
            self.wf(),
        ensures
            match r {
                Ok(v) => handoff_aligned::<T, U>() && v@ == self@,
                Err(e) => !handoff_aligned::<T, U>() && e == self,
            },
    {
        vstd::layout::layout_for_type_is_valid::<T>();
        proof {
            reveal(vstd::arithmetic::power2::is_pow2);
        }
        let t_align = core::mem::align_of::<T>();
        let cell_align = core::mem::align_of::<U::Union>();
        if cell_align % t_align != 0 {
            return Err(self);
        }
        let cap = self.capacity();
        let len = self.len();
        let cell_size = core::mem::size_of::<U::Union>();
        let t_size = core::mem::size_of::<T>();
        let new_cap: usize = if t_size == 0 {
            len
        } else {
            match cap.checked_mul(cell_size) {
                Some(bytes) => {
                    let c = bytes / t_size;
                    if c < len {
                        len
                    } else {
                        c
                    }
                },
                None => len,
            }
        };
        let ghost orig: Seq<T> = self@;
        let cells = self.into_data();
        let out = crate::unionvec::project_all::<T, S, U>(cells, Vec::with_capacity(new_cap));
        proof {
            assert(out@ =~= orig);
        }
        Ok(out)
    }

    /// Applies `f` to every element in index order and hands the results
    /// over as a plain `Vec` of the member type at position `S2`, when the
    /// cell alignment is an even multiple of that member's alignment;
    /// otherwise returns the vector untouched as the error. One pass does
    /// the work of `map` followed by `try_to_vec`.
    pub fn try_to_vec_map<S2: Selector, F>(self, f: F) -> (r: Result<
        Vec<<U as Select<S2>>::Output>,
        Self,
    >) where
        U: Select<S2>,
        F: Fn(T) -> <U as Select<S2>>::Output,

        requires
            self.wf(),
            forall|i: int| 0 <= i < self@.len() ==> call_requires(f, (#[trigger] self@[i],)),
        ensures
            match r {
                Ok(v) => handoff_aligned::<<U as Select<S2>>::Output, U>() && v@.len()
                    == self@.len() && (forall|i: int|
                    0 <= i < self@.len() ==> call_ensures(f, (self@[i],), #[trigger] v@[i])),
                Err(e) => !handoff_aligned::<<U as Select<S2>>::Output, U>() && e == self,
            },
    {
        vstd::layout::layout_for_type_is_valid::<<U as Select<S2>>::Output>();
        proof {
            reveal(vstd::arithmetic::power2::is_pow2);
        }
        let t_align = core::mem::align_of::<<U as Select<S2>>::Output>();
        let cell_align = core::mem::align_of::<U::Union>();
        if cell_align % t_align != 0 {
            return Err(self);
        }
        let cap = self.capacity();
        let len = self.len();
        let cell_size = core::mem::size_of::<U::Union>();
        let t_size = core::mem::size_of::<<U as Select<S2>>::Output>();
        let new_cap: usize = if t_size == 0 {
            len
        } else {
            match cap.checked_mul(cell_size) {
                Some(bytes) => {
                    let c = bytes / t_size;
                    if c < len {
                        len
                    } else {
                        c
                    }
                },
                None => len,
            }
        };
        let ghost orig: Seq<T> = self@;
        let mut cells = self.into_data();
        let mut rev: Vec<U::Union> = Vec::new();
        while cells.len() > 0
            invariant
                cells@.len() + rev@.len() == orig.len(),
                forall|i: int|
                    0 <= i < cells@.len() ==> <U as Select<S>>::holds(#[trigger] cells@[i]) && <U as Select<
                        S,
                    >>::value_of(cells@[i]) == orig[i],
                forall|j: int|
                    0 <= j < rev@.len() ==> <U as Select<S>>::holds(#[trigger] rev@[j]) && <U as Select<
                        S,
                    >>::value_of(rev@[j]) == orig[orig.len() - 1 - j],
            decreases cells@.len(),
        {
            let u = match cells.pop() {
                Some(u) => u,
                None => vstd::pervasive::unreached(),
            };
            rev.push(u);
        }
        let mut out: Vec<<U as Select<S2>>::Output> = Vec::with_capacity(new_cap);
        while rev.len() > 0
            invariant
                out@.len() + rev@.len() == orig.len(),
                forall|j: int|
                    0 <= j < rev@.len() ==> <U as Select<S>>::holds(#[trigger] rev@[j]) && <U as Select<
                        S,
                    >>::value_of(rev@[j]) == orig[orig.len() - 1 - j],
                forall|i: int| 0 <= i < out@.len() ==> call_ensures(f, (orig[i],), #[trigger] out@[i]),
                forall|i: int| 0 <= i < orig.len() ==> call_requires(f, (#[trigger] orig[i],)),
            decreases rev@.len(),
        {
            let u = match rev.pop() {
                Some(u) => u,
                None => vstd::pervasive::unreached(),
            };
            let t = <U as Select<S>>::project(u);
            out.push(f(t));
        }
        Ok(out)
    }
}

impl<T, S: Selector, U: Select<S, Output = T>> Clone for SelectVec<T, S, U> where
    U::Union: Clone,
 {
    /// Clones the cell buffer. How a cell's member value clones is the
    /// member type's own business, so nothing is claimed of the cloned
    /// elements beyond their number.
    fn clone(&self) -> (r: Self)
        ensures
            r@.len() == self@.len(),
            r.spec_capacity() == self.spec_capacity(),
    {
        SelectVec { inner: self.inner.clone() }
    }
}

impl<T, S: Selector, U: Select<S, Output = T>> Default for SelectVec<T, S, U> {
    /// The empty vector with no cells allocated.
    fn default() -> (v: Self)
        ensures
            v.wf(),
            v@ == Seq::<T>::empty(),
            v.spec_capacity() == 0,
    {
        SelectVec::new()
    }
}

/// A handle over a single storage cell, under the name the vector's users
/// see: one item of a [`SelectVec`].
pub type SelectItem<T, S, U> = crate::select::SelectHandle<T, S, U>;

/// A non-owning window over the cells of a [`SelectVec`]: borrowing
/// iteration over a vector's elements without touching its allocation.
///
/// The window is read-only. Retyping a window's cells in place would
/// leave the vector behind it holding two member types at once, which the
/// container's single-type invariant rules out; retyping therefore stays
/// with the owning vector ([`SelectVec::map`], [`SelectVec::change_type`]).
#[verifier::reject_recursive_types(T)]
#[verifier::reject_recursive_types(S)]
pub struct SelectSlice<'a, T, S, U: Select<S, Output = T>> where S: Selector {
    /// The borrowed cells, in element order.
    data: &'a [U::Union],
    /// Marks the member type live in every borrowed cell.
    marker: PhantomData<(T, S)>,
}

impl<'a, T, S: Selector, U: Select<S, Output = T>> View for SelectSlice<'a, T, S, U> {
    type V = Seq<T>;

    closed spec fn view(&self) -> Seq<T> {
        self.data@.map(|i: int, u: U::Union| U::value_of(u))
    }
}

impl<'a, T, S: Selector, U: Select<S, Output = T>> SelectSlice<'a, T, S, U> {
    /// Every borrowed cell holds a live member value at position `S`.
    pub closed spec fn wf(&self) -> bool {
        forall|i: int| 0 <= i < self.data@.len() ==> U::holds(#[trigger] self.data@[i])
    }

    /// Returns the position of the current member type in the universe,
    /// counted from zero.
    pub fn current_type(&self) -> (n: usize)
        ensures
            n as nat == S::spec_position(),
    {
        S::position()
    }

    /// Returns the number of elements in the window.
    pub fn len(&self) -> (n: usize)
        ensures
            n == self@.len(),
    {
        self.data.len()
    }

    /// Borrows the element at position `i` of the window.
    pub fn get(&self, i: usize) -> (t: &'a T)
        requires
            self.wf(),
            i < self@.len(),
        ensures
            *t == self@[i as int],
    {
        U::project_ref(vstd::slice::slice_index_get(self.data, i))
    }
}

/// A by-value cursor over the elements a vector held, yielding from the
/// front with [`IntoIter::next`] and from the back with
/// [`IntoIter::next_back`].
#[verifier::reject_recursive_types(T)]
#[verifier::reject_recursive_types(S)]
pub struct IntoIter<T, S, U: Select<S, Output = T>> where S: Selector {
    /// The cells not yet yielded, in element order.
    data: Vec<U::Union>,
    /// Marks the member type live in every remaining cell.
    marker: PhantomData<(T, S)>,
}

impl<T, S: Selector, U: Select<S, Output = T>> View for IntoIter<T, S, U> {
    type V = Seq<T>;

    closed spec fn view(&self) -> Seq<T> {
        self.data@.map(|i: int, u: U::Union| U::value_of(u))
    }
}

impl<T, S: Selector, U: Select<S, Output = T>> IntoIter<T, S, U> {
    /// Every remaining cell holds a live member value at position `S`.
    pub closed spec fn wf(&self) -> bool {
        forall|i: int| 0 <= i < self.data@.len() ==> U::holds(#[trigger] self.data@[i])
    }

    /// Returns the number of elements not yet yielded.
    pub fn remaining(&self) -> (n: usize)
        ensures
            n == self@.len(),
    {
        self.data.len()
    }

    /// Yields the front element, or `None` when the cursor is exhausted.
    pub fn next(&mut self) -> (r: Option<T>)
        requires
            old(self).wf(),
        ensures
            final(self).wf(),
            old(self)@.len() > 0 ==> r == Some(old(self)@.first()) && final(self)@ == old(
                self,
            )@.drop_first(),
            old(self)@.len() == 0 ==> r == None::<T> && final(self)@ == old(self)@,
    {
        if self.data.len() == 0 {
            None
        } else {
            let u = self.data.remove(0);
            proof {
                assert(self@ =~= old(self)@.drop_first());
            }
            Some(U::project(u))
        }
    }

    /// Yields the back element, or `None` when the cursor is exhausted.
    pub fn next_back(&mut self) -> (r: Option<T>)
        requires
            old(self).wf(),
        ensures
            final(self).wf(),
            old(self)@.len() > 0 ==> r == Some(old(self)@.last()) && final(self)@ == old(
                self,
            )@.drop_last(),
            old(self)@.len() == 0 ==> r == None::<T> && final(self)@ == old(self)@,
    {
        match self.data.pop() {
            Some(u) => {
                proof {
                    assert(self@ =~= old(self)@.drop_last());
                }
                Some(U::project(u))
            },
            None => None,
        }
    }
}

} // verus!
