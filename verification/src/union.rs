//! The storage cells: one union type per universe arity, and the universe
//! impls that resolve each selector to the member at its position.
//!
//! A cell of `Union2<AA, BB>` is wide enough for an `AA` or a `BB`; which
//! member is live is tracked by the containers' specifications, not by
//! reading the cell. Universes are written as plain tuples of their member
//! types, so a vector over the universe `(String, u64)` holds cells of
//! `Union2<String, u64>`.

use crate::index::{Type1, Type2, Type3};
use crate::select::{Select, TypeSelect, TypeUnion};
use vstd::prelude::*;

verus! {

/// Overlapping storage for one value of either of two member types.
#[derive(Clone, Debug, PartialEq, Eq, Hash)]
pub enum Union2<AA, BB> {
    /// A live value of the first member type.
    First(AA),
    /// A live value of the second member type.
    Second(BB),
}

/// Overlapping storage for one value of any of three member types.
#[derive(Clone, Debug, PartialEq, Eq, Hash)]
pub enum Union3<AA, BB, CC> {
    /// A live value of the first member type.
    First(AA),
    /// A live value of the second member type.
    Second(BB),
    /// A live value of the third member type.
    Third(CC),
}

impl<AA, BB> TypeSelect<(AA, BB)> for Union2<AA, BB> {

}

impl<AA, BB, CC> TypeSelect<(AA, BB, CC)> for Union3<AA, BB, CC> {

}

impl<AA, BB> TypeUnion for (AA, BB) {
    type Union = Union2<AA, BB>;
}

impl<AA, BB, CC> TypeUnion for (AA, BB, CC) {
    type Union = Union3<AA, BB, CC>;
}

impl<AA, BB> Select<Type1> for (AA, BB) {
    type Output = AA;

    open spec fn holds(u: Union2<AA, BB>) -> bool {
        u is First
    }

    open spec fn value_of(u: Union2<AA, BB>) -> AA {
        u->First_0
    }

    fn inject(t: AA) -> (u: Union2<AA, BB>) {
        Union2::First(t)
    }

    fn project(u: Union2<AA, BB>) -> (t: AA) {
        match u {
            Union2::First(a) => a,
            Union2::Second(_) => vstd::pervasive::unreached(),
        }
    }

    fn project_ref(u: &Union2<AA, BB>) -> (t: &AA) {
        match u {
            Union2::First(a) => a,
            Union2::Second(_) => vstd::pervasive::unreached(),
        }
    }
}

impl<AA, BB> Select<Type2> for (AA, BB) {
    type Output = BB;

    open spec fn holds(u: Union2<AA, BB>) -> bool {
        u is Second
    }

    open spec fn value_of(u: Union2<AA, BB>) -> BB {
        u->Second_0
    }

    fn inject(t: BB) -> (u: Union2<AA, BB>) {
        Union2::Second(t)
    }

    fn project(u: Union2<AA, BB>) -> (t: BB) {
        match u {
            Union2::First(_) => vstd::pervasive::unreached(),
            Union2::Second(b) => b,
        }
    }

    fn project_ref(u: &Union2<AA, BB>) -> (t: &BB) {
        match u {
            Union2::First(_) => vstd::pervasive::unreached(),
            Union2::Second(b) => b,
        }
    }
}

impl<AA, BB, CC> Select<Type1> for (AA, BB, CC) {
    type Output = AA;

    open spec fn holds(u: Union3<AA, BB, CC>) -> bool {
        u is First
    }

    open spec fn value_of(u: Union3<AA, BB, CC>) -> AA {
        u->First_0
    }

    fn inject(t: AA) -> (u: Union3<AA, BB, CC>) {
        Union3::First(t)
    }

    fn project(u: Union3<AA, BB, CC>) -> (t: AA) {
        match u {
            Union3::First(a) => a,
            _ => vstd::pervasive::unreached(),
        }
    }

    fn project_ref(u: &Union3<AA, BB, CC>) -> (t: &AA) {
        match u {
            Union3::First(a) => a,
            _ => vstd::pervasive::unreached(),
        }
    }
}

impl<AA, BB, CC> Select<Type2> for (AA, BB, CC) {
    type Output = BB;

    open spec fn holds(u: Union3<AA, BB, CC>) -> bool {
        u is Second
    }

    open spec fn value_of(u: Union3<AA, BB, CC>) -> BB {
        u->Second_0
    }

    fn inject(t: BB) -> (u: Union3<AA, BB, CC>) {
        Union3::Second(t)
    }

    fn project(u: Union3<AA, BB, CC>) -> (t: BB) {
        match u {
            Union3::Second(b) => b,
            _ => vstd::pervasive::unreached(),
        }
    }

    fn project_ref(u: &Union3<AA, BB, CC>) -> (t: &BB) {
        match u {
            Union3::Second(b) => b,
            _ => vstd::pervasive::unreached(),
        }
    }
}

impl<AA, BB, CC> Select<Type3> for (AA, BB, CC) {
    type Output = CC;

    open spec fn holds(u: Union3<AA, BB, CC>) -> bool {
        u is Third
    }

    open spec fn value_of(u: Union3<AA, BB, CC>) -> CC {
        u->Third_0
    }

    fn inject(t: CC) -> (u: Union3<AA, BB, CC>) {
        Union3::Third(t)
    }

    fn project(u: Union3<AA, BB, CC>) -> (t: CC) {
        match u {
            Union3::Third(c) => c,
            _ => vstd::pervasive::unreached(),
        }
    }

    fn project_ref(u: &Union3<AA, BB, CC>) -> (t: &CC) {
        match u {
            Union3::Third(c) => c,
            _ => vstd::pervasive::unreached(),
        }
    }
}

} // verus!
