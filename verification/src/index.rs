//! The selectors: zero-size markers that index into a type universe.

use crate::select::Selector;
use vstd::prelude::*;

verus! {

/// Selects the first member of a type universe.
#[derive(Clone, Copy, Debug, PartialEq, Eq, Hash, Default)]
pub struct Type1;

/// Selects the second member of a type universe.
#[derive(Clone, Copy, Debug, PartialEq, Eq, Hash, Default)]
pub struct Type2;

/// Selects the third member of a type universe.
#[derive(Clone, Copy, Debug, PartialEq, Eq, Hash, Default)]
pub struct Type3;

/// A short name for the first selector.
pub type A = Type1;

/// A short name for the second selector.
pub type B = Type2;

/// A short name for the third selector.
pub type C = Type3;

impl Selector for Type1 {
    open spec fn spec_position() -> nat {
        0
    }

    fn position() -> (n: usize) {
        0
    }
}

impl Selector for Type2 {
    open spec fn spec_position() -> nat {
        1
    }

    fn position() -> (n: usize) {
        1
    }
}

impl Selector for Type3 {
    open spec fn spec_position() -> nat {
        2
    }

    fn position() -> (n: usize) {
        2
    }
}

} // verus!
