//! Pins, as far as other modules need to name them: a pin is known by its
//! identity and by the mode that it is in, both as types.

use crate::typelevel::{NoneT, Sealed};
use core::marker::PhantomData;
use vstd::prelude::*;

verus! {

/// A type that names one pin of the chip.
pub trait PinId: Sealed {

}

/// A type that names a mode that a pin can be in.
pub trait PinMode: Sealed {

}

/// One pin of the chip, in one mode.
pub struct Pin<I: PinId, M: PinMode> {
    id: PhantomData<I>,
    mode: PhantomData<M>,
}

impl<I: PinId, M: PinMode> Sealed for Pin<I, M> {

}

/// Any pin in any mode, with the two types that make it up.
pub trait AnyPin: Sealed {
    type Id: PinId;

    type Mode: PinMode;
}

impl<I: PinId, M: PinMode> AnyPin for Pin<I, M> {
    type Id = I;

    type Mode = M;
}

/// A pin's identity, or none.
pub trait OptionalPinId {

}

impl OptionalPinId for NoneT {

}

impl<I: PinId> OptionalPinId for I {

}

/// A pin, or none.
pub trait OptionalPin: Sealed {
    type Id: OptionalPinId;
}

impl OptionalPin for NoneT {
    type Id = NoneT;
}

impl<P: AnyPin> OptionalPin for P {
    type Id = P::Id;
}

} // verus!
