//! Verified parts of a hardware abstraction layer for the SAM D21 family of
//! microcontrollers.
//!
//! The heart of the crate is [`usb`], the driver of the USB device
//! controller. Around it stand the bus clocks of the peripherals
//! ([`clock`]), and the types that name pins and the pads of the serial
//! interfaces ([`gpio`], [`sercom`], [`typelevel`]).

pub mod clock;
pub mod gpio;
pub mod sercom;
pub mod typelevel;
pub mod usb;
