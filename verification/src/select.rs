//! The trait core: selectors, type universes and the single-cell handle.
//!
//! A type universe is a closed, ordered list of candidate types. Its storage
//! cell is the universe's union type: one value wide enough for any member.
//! A selector is a zero-size marker naming one position of the universe, and
//! [`Select`] resolves a position to its member type, with verified movement
//! of member values into and out of a cell.

use core::marker::PhantomData;
use vstd::prelude::*;

verus! {

/// A zero-size marker naming one position of a type universe.
pub trait Selector: Sized {
    /// The position this selector names, counted from zero.
    spec fn spec_position() -> nat;

    /// Returns the position this selector names.
    fn position() -> (n: usize)
        ensures
            n as nat == Self::spec_position(),
    ;
}

/// Marks a union type as the overlapping storage cell of the universe `U`:
/// a single value of it is wide enough to hold any member of `U`.
pub trait TypeSelect<U>: Sized {

}

/// A closed, ordered list of candidate types, together with its storage
/// cell type. Membership is witnessed positionally: the universe implements
/// [`Select<S>`] exactly for the selectors `S` that name one of its
/// positions, so selecting a type outside the universe is rejected at
/// compile time.
pub trait TypeUnion: Sized {
    /// The storage cell: a union over the universe's members.
    type Union: TypeSelect<Self>;
}

/// The size of the universe `U`'s storage cell, which every member fits
/// in.
pub open spec fn widest_size<U: TypeUnion>() -> nat {
    vstd::layout::size_of::<U::Union>()
}

/// The alignment of the universe `U`'s storage cell, a multiple of every
/// member's alignment.
pub open spec fn widest_align<U: TypeUnion>() -> nat {
    vstd::layout::align_of::<U::Union>()
}

/// Resolves the selector `S` to the universe member type at that position
/// (`Output`), and moves member values into and out of storage cells.
///
/// A cell holds at most one live member at a time; `holds` says whether the
/// member at position `S` is the live one, and `value_of` reads it. The
/// executable `inject` and `project` are the only ways a member value enters
/// or leaves a cell, and their contracts keep every read matched to the
/// write that put the value there.
pub trait Select<S: Selector>: TypeUnion {
    /// The universe member at position `S`.
    type Output;

    /// True when the live value of the cell `u` is the member at
    /// position `S`.
    spec fn holds(u: Self::Union) -> bool;

    /// The member value at position `S` held by the cell `u`; meaningful
    /// only when `holds(u)`.
    spec fn value_of(u: Self::Union) -> Self::Output;

    /// Writes a member value into a fresh cell.
    fn inject(t: Self::Output) -> (u: Self::Union)
        ensures
            Self::holds(u),
            Self::value_of(u) == t,
    ;

    /// Moves the member value out of a cell.
    fn project(u: Self::Union) -> (t: Self::Output)
        requires
            Self::holds(u),
        ensures
            t == Self::value_of(u),
    ;

    /// Borrows the member value held by a cell.
    fn project_ref(u: &Self::Union) -> (t: &Self::Output)
        requires
            Self::holds(*u),
        ensures
            *t == Self::value_of(*u),
    ;
}

/// One storage cell of the universe `U` together with the compile-time
/// record (the selector `S`) of which member type is treated as live in it.
///
/// Whether the cell really holds a live member at position `S` is the spec
/// predicate [`SelectHandle::is_live`]: constructors establish it, reads
/// require it, and [`SelectHandle::change_to`] deliberately returns a handle
/// without it, so that a retagged cell must be written before it can be
/// read again.
#[verifier::reject_recursive_types(T)]
#[verifier::reject_recursive_types(S)]
pub struct SelectHandle<T, S, U: Select<S, Output = T>> where S: Selector {
    /// The storage cell itself.
    data: U::Union,
    /// Marks the member type currently declared live in the cell.
    current: PhantomData<(T, S)>,
}

impl<T, S: Selector, U: Select<S, Output = T>> SelectHandle<T, S, U> {
    /// True when the cell holds a live member value at position `S`.
    pub closed spec fn is_live(&self) -> bool {
        U::holds(self.data)
    }

    /// The member value the cell holds; meaningful only when `is_live`.
    pub closed spec fn value(&self) -> T {
        U::value_of(self.data)
    }

    /// Writes `t` into a fresh cell and tags the handle with its type.
    pub fn from(t: T) -> (h: Self)
        ensures
            h.is_live(),
            h.value() == t,
    {
        SelectHandle { data: U::inject(t), current: PhantomData }
    }

    /// Moves the live value out of the cell, consuming the handle.
    pub fn into(self) -> (t: T)
        requires
            self.is_live(),
        ensures
            t == self.value(),
    {
        U::project(self.data)
    }

    /// Wraps a raw cell, tagging it with the member type at position `S`;
    /// the handle is live exactly when the cell holds that member.
    pub fn from_inner(data: U::Union) -> (h: Self)
        ensures
            h.is_live() <==> U::holds(data),
            h.value() == U::value_of(data),
    {
        SelectHandle { data, current: PhantomData }
    }

    /// Consumes the handle and returns the raw cell.
    pub fn into_inner(self) -> (u: U::Union)
        ensures
            U::holds(u) <==> self.is_live(),
            U::value_of(u) == self.value(),
    {
        self.data
    }

    /// Returns a copy of the live value.
    pub fn copy_current(&self) -> (t: T) where T: Copy
        requires
            self.is_live(),
        ensures
            t == self.value(),
    {
        *U::project_ref(&self.data)
    }

    /// Returns a clone of the live value.
    pub fn clone_current(&self) -> (t: T) where T: Clone
        requires
            self.is_live(),
        ensures
            vstd::pervasive::cloned::<T>(self.value(), t),
    {
        U::project_ref(&self.data).clone()
    }

    /// Overwrites the cell with `item`, making the handle live. Whatever
    /// the cell held before is discarded.
    pub fn write(&mut self, item: T)
        ensures
            final(self).is_live(),
            final(self).value() == item,
    {
        self.data = U::inject(item);
    }

    /// Discards the live value and returns the cell retagged with the
    /// member type at position `S2`.
    ///
    /// The returned handle's content is deliberately unspecified: nothing
    /// can be read out of it until [`SelectHandle::write`] has filled it.
    /// This is the two-step retag-then-fill protocol, not a conversion.
    pub fn change_to<S2: Selector>(self) -> (h: SelectHandle<<U as Select<S2>>::Output, S2, U>) where
        U: Select<S2>,

        requires
            self.is_live(),
    {
        SelectHandle { data: self.data, current: PhantomData }
    }

    /// Moves the live value out, applies `f`, and returns a live handle
    /// over the result, retagged with the member type at position `S2`.
    pub fn map<S2: Selector, F>(self, f: F) -> (h: SelectHandle<
        <U as Select<S2>>::Output,
        S2,
        U,
    >) where
        U: Select<S2>,
        F: Fn(T) -> <U as Select<S2>>::Output,

        requires
            self.is_live(),
            call_requires(f, (self.value(),)),
        ensures
            h.is_live(),
            call_ensures(f, (self.value(),), h.value()),
    {
        let t = <U as Select<S>>::project(self.data);
        let t2 = f(t);
        SelectHandle { data: <U as Select<S2>>::inject(t2), current: PhantomData }
    }

    /// Moves the live value out and applies `f`: a live handle over the
    /// result when `f` produces a value, nothing when `f` declines (the
    /// value is then dropped and no cell survives).
    pub fn filter_map<S2: Selector, F>(self, f: F) -> (r: Option<
        SelectHandle<<U as Select<S2>>::Output, S2, U>,
    >) where
        U: Select<S2>,
        F: Fn(T) -> Option<<U as Select<S2>>::Output>,

        requires
            self.is_live(),
            call_requires(f, (self.value(),)),
        ensures
            match r {
                Some(h) => h.is_live() && call_ensures(f, (self.value(),), Some(h.value())),
                None => call_ensures(f, (self.value(),), None::<<U as Select<S2>>::Output>),
            },
    {
        let t = <U as Select<S>>::project(self.data);
        match f(t) {
            Some(t2) => Some(
                SelectHandle { data: <U as Select<S2>>::inject(t2), current: PhantomData },
            ),
            None => None,
        }
    }
}

} // verus!
