//! Containers whose backing storage can hold any one type out of a closed,
//! ordered list of candidate types (a "type universe"), one logical element
//! type at a time.
//!
//! A storage cell is a value of the universe's union type, wide enough for
//! any member. A selector names one position of the universe, and the
//! [`select::Select`] trait turns a position into its member type together
//! with verified injection into and projection out of a cell. On top of the
//! cells sit a single-cell handle ([`select::SelectHandle`]), a growable
//! vector ([`unionvec::UnionVec`], [`selectvec::SelectVec`]) and a boxed cell
//! ([`unionbox::UnionBox`]), all of which can change the logical element type
//! of their storage without giving the storage up.

pub mod index;
pub mod select;
pub mod selectvec;
pub mod transform;
pub mod union;
pub mod unionbox;
pub mod unionvec;
