//! Types that name peripherals. A peripheral that has a type of its own
//! elsewhere is named by that type; the others are named here.

use crate::typelevel::Sealed;
use vstd::prelude::*;

pub use crate::sercom::{Sercom0, Sercom1, Sercom2, Sercom3};

verus! {

/// Names the first peripheral access controller.
pub struct Pac0;

impl Sealed for Pac0 {

}

/// Names the power manager.
pub struct Pm;

impl Sealed for Pm {

}

/// Names the system controller.
pub struct SysCtrl;

impl Sealed for SysCtrl {

}

/// Names the generic clock controller.
pub struct Gclk;

impl Sealed for Gclk {

}

/// Names the watchdog timer.
pub struct Wdt;

impl Sealed for Wdt {

}

/// Names the real-time counter.
pub struct Rtc;

impl Sealed for Rtc {

}

/// Names the external interrupt controller.
pub struct Eic;

impl Sealed for Eic {

}

/// Names the second peripheral access controller.
pub struct Pac1;

impl Sealed for Pac1 {

}

/// Names the device service unit.
pub struct Dsu;

impl Sealed for Dsu {

}

/// Names the controller of the non-volatile memory.
pub struct NvmCtrl;

impl Sealed for NvmCtrl {

}

/// Names the pin controller.
pub struct Port;

impl Sealed for Port {

}

/// Names the DMA controller.
pub struct Dmac;

impl Sealed for Dmac {

}

/// Names the USB peripheral.
pub struct Usb;

impl Sealed for Usb {

}

/// Names the third peripheral access controller.
pub struct Pac2;

impl Sealed for Pac2 {

}

/// Names the event system.
pub struct EvSys;

impl Sealed for EvSys {

}

/// Names timer for control 0.
pub struct Tcc0;

impl Sealed for Tcc0 {

}

/// Names timer for control 1.
pub struct Tcc1;

impl Sealed for Tcc1 {

}

/// Names timer for control 2.
pub struct Tcc2;

impl Sealed for Tcc2 {

}

/// Names timer 3.
pub struct Tc3;

impl Sealed for Tc3 {

}

/// Names timer 4.
pub struct Tc4;

impl Sealed for Tc4 {

}

/// Names timer 5.
pub struct Tc5;

impl Sealed for Tc5 {

}

/// Names the analog to digital converter.
pub struct Adc0;

impl Sealed for Adc0 {

}

/// Names the analog comparators.
pub struct Ac;

impl Sealed for Ac {

}

/// Names the digital to analog converter.
pub struct Dac;

impl Sealed for Dac {

}

/// Names the touch controller.
pub struct Ptc;

impl Sealed for Ptc {

}

/// Names the inter-IC sound interface.
pub struct I2S;

impl Sealed for I2S {

}

/// Names the second pair of analog comparators.
pub struct Ac1;

impl Sealed for Ac1 {

}

} // verus!
