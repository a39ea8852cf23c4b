//! A heap-allocated storage cell with the compile-time record of the
//! member type live in it.

use core::marker::PhantomData;
use crate::select::{Select, Selector};
use vstd::prelude::*;

verus! {

/// One boxed storage cell of the universe `U`, holding a live value of the
/// member type `T` at position `S`.
///
/// Unlike [`crate::select::SelectHandle`], the box is always live: it is
/// created from a member value and every retype rewrites the cell in the
/// same breath, so there is no unfilled state to guard against.
#[verifier::reject_recursive_types(T)]
#[verifier::reject_recursive_types(S)]
pub struct UnionBox<T, S, U: Select<S, Output = T>> where S: Selector {
    /// The heap-allocated storage cell.
    data: Box<U::Union>,
    /// Marks the member type live in the cell.
    marker: PhantomData<(T, S)>,
}

impl<T, S: Selector, U: Select<S, Output = T>> UnionBox<T, S, U> {
    /// The cell holds a live member value at position `S`.
    pub closed spec fn wf(&self) -> bool {
        U::holds(*self.data)
    }

    /// The member value the cell holds.
    pub closed spec fn value(&self) -> T {
        U::value_of(*self.data)
    }

    /// Writes `x` into a fresh heap cell.
    pub fn new(x: T) -> (b: Self)
        ensures
            b.wf(),
            b.value() == x,
    {
        UnionBox { data: Box::new(U::inject(x)), marker: PhantomData }
    }

    /// Consumes the box and returns the raw heap cell.
    pub fn into_data(self) -> (d: Box<U::Union>)
        requires
            self.wf(),
        ensures
            U::holds(*d),
            U::value_of(*d) == self.value(),
    {
        self.data
    }

    /// Borrows the live value.
    pub fn get(&self) -> (t: &T)
        requires
            self.wf(),
        ensures
            *t == self.value(),
    {
        U::project_ref(&*self.data)
    }

    /// Returns a copy of the live value.
    pub fn copy_current(&self) -> (t: T) where T: Copy
        requires
            self.wf(),
        ensures
            t == self.value(),
    {
        *U::project_ref(&*self.data)
    }

    /// Moves the live value out, applies `f`, and writes the result back
    /// into the same heap cell, retagged with the member type at position
    /// `S2`.
    pub fn map<S2: Selector, F>(self, f: F) -> (b: UnionBox<<U as Select<S2>>::Output, S2, U>) where
        U: Select<S2>,
        F: Fn(T) -> <U as Select<S2>>::Output,

        requires
            self.wf(),
            call_requires(f, (self.value(),)),
        ensures
            b.wf(),
            call_ensures(f, (self.value(),), b.value()),
    {
        let u = *self.data;
        let t = <U as Select<S>>::project(u);
        let t2 = f(t);
        UnionBox { data: Box::new(<U as Select<S2>>::inject(t2)), marker: PhantomData }
    }
}

} // verus!
