//! The pads of the serial communication interfaces, as types.
//!
//! A pad is known by its interface and its number, and several pins can
//! serve as one pad. [`IsPad`] marks the pins that are set up as a pad and
//! recovers the pad's interface and number from the pin; [`GetPad`] maps a
//! pin's identity to the pad's number and to the mode that the pin must be
//! in.

use crate::gpio::{AnyPin, OptionalPin, OptionalPinId, Pin, PinId, PinMode};
use crate::sercom::Sercom;
use crate::typelevel::{NoneT, Sealed};
use vstd::prelude::*;

verus! {

/// The number of a pad: one of `Pad0`, `Pad1`, `Pad2` and `Pad3`.
pub trait PadNum: Sealed {

}

/// Pad 0.
pub struct Pad0;

impl Sealed for Pad0 {

}

impl PadNum for Pad0 {

}

/// Pad 1.
pub struct Pad1;

impl Sealed for Pad1 {

}

impl PadNum for Pad1 {

}

/// Pad 2.
pub struct Pad2;

impl Sealed for Pad2 {

}

impl PadNum for Pad2 {

}

/// Pad 3.
pub struct Pad3;

impl Sealed for Pad3 {

}

impl PadNum for Pad3 {

}

/// The number of a pad, or none.
pub trait OptionalPadNum: Sealed {

}

impl OptionalPadNum for NoneT {

}

impl<N: PadNum> OptionalPadNum for N {

}

/// A pin that is set up as a pad, with the pad's interface and number.
pub trait IsPad: AnyPin {
    type Sercom: Sercom;

    type PadNum: PadNum;
}

/// A pin that is set up as a pad and can carry I2C.
pub trait IsI2cPad: IsPad {

}

/// A pad, or none.
pub trait OptionalPad: OptionalPin {
    type PadNum: OptionalPadNum;
}

impl OptionalPad for NoneT {
    type PadNum = NoneT;
}

impl<P: IsPad> OptionalPad for P {
    type PadNum = P::PadNum;
}

/// A pad that is there: every `OptionalPad` but `NoneT`.
pub trait SomePad: IsPad {

}

impl<P: IsPad> SomePad for P {

}

/// Maps a pin's identity to the pad that the pin is for the interface `S`:
/// the pad's number, and the mode that makes the pin that pad.
pub trait GetPad<S> where S: Sercom, Self: PinId {
    type PadNum: PadNum;

    type PinMode: PinMode;
}

/// The mode that makes the pin `I` a pad of the interface `S`.
pub type PadMode<S, I> = <I as GetPad<S>>::PinMode;

/// The pin `I`, set up as a pad of the interface `S`.
pub type Pad<S, I> = Pin<I, PadMode<S, I>>;

/// Maps a pin's identity, or none, to its pad, or none.
pub trait GetOptionalPad<S: Sercom>: OptionalPinId {
    type PadNum: OptionalPadNum;

    type Pad: OptionalPad;
}

impl<S: Sercom> GetOptionalPad<S> for NoneT {
    type PadNum = NoneT;

    type Pad = NoneT;
}

impl<S, I> GetOptionalPad<S> for I where S: Sercom, I: PinId + GetPad<S>, Pad<S, I>: IsPad {
    type PadNum = I::PadNum;

    type Pad = Pad<S, I>;
}

} // verus!
