//! Building blocks for programming with types: sealed traits and the type
//! that stands for "none".

use vstd::prelude::*;

verus! {

/// Keeps a trait closed: only types of this crate can implement a trait
/// that has `Sealed` above it.
pub trait Sealed {

}

/// The type that stands for the absence of a type, as `None` stands for
/// the absence of a value.
#[derive(Clone, Copy, PartialEq, Eq, Debug)]
pub struct NoneT;

impl Sealed for NoneT {

}

} // verus!
