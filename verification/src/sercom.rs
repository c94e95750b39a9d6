//! Serial communication interfaces, as far as their pads are concerned.

use crate::typelevel::Sealed;
use vstd::prelude::*;

pub mod pad;

verus! {

/// A type that names one serial communication interface of the chip.
pub trait Sercom: Sealed {

}

/// Serial interface 0.
pub struct Sercom0;

impl Sealed for Sercom0 {

}

impl Sercom for Sercom0 {

}

/// Serial interface 1.
pub struct Sercom1;

impl Sealed for Sercom1 {

}

impl Sercom for Sercom1 {

}

/// Serial interface 2.
pub struct Sercom2;

impl Sealed for Sercom2 {

}

impl Sercom for Sercom2 {

}

/// Serial interface 3.
pub struct Sercom3;

impl Sealed for Sercom3 {

}

impl Sercom for Sercom3 {

}

} // verus!
