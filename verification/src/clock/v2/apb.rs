//! The bus clocks of the peripherals.
//!
//! Software reaches a peripheral over one of three bridges, and only while
//! the peripheral's clock on that bridge runs. Each bridge has a mask
//! register with one bit per peripheral; the clock runs while the bit is set.
//!
//! The registers are shared by all the clocks, so they are kept in one
//! place: [`Apb`] holds them, and a clock is switched only through it. A
//! clock that is off is an [`ApbToken`], a clock that is on is an
//! [`ApbClk`]; switching the clock turns the one into the other.

use crate::clock::v2::types::{
    Ac, Ac1, Adc0, Dac, Dmac, Dsu, Eic, EvSys, Gclk, NvmCtrl, Pac0, Pac1, Pac2, Pm, Port, Ptc,
    Rtc, Sercom0, Sercom1, Sercom2, Sercom3, SysCtrl, Tc3, Tc4, Tc5, Tcc0, Tcc1, Tcc2, Usb, Wdt,
    I2S,
};
use crate::typelevel::Sealed;
use core::marker::PhantomData;
use vstd::prelude::*;
use vstd::std_specs::convert::FromSpecImpl;

verus! {

/// The three bridges.
#[derive(Clone, Copy, PartialEq, Eq, Structural, Debug)]
pub enum Bridge {
    A,
    B,
    C,
}

/// The bus clocks, as values.
#[derive(Clone, Copy, PartialEq, Eq, Structural, Debug)]
pub enum DynApbId {
    /// The clock of the first peripheral access controller.
    Pac0,
    /// The clock of the power manager.
    Pm,
    /// The clock of the system controller.
    SysCtrl,
    /// The clock of the generic clock controller.
    Gclk,
    /// The clock of the watchdog timer.
    Wdt,
    /// The clock of the real-time counter.
    Rtc,
    /// The clock of the external interrupt controller.
    Eic,
    /// The clock of the second peripheral access controller.
    Pac1,
    /// The clock of the device service unit.
    Dsu,
    /// The clock of the controller of the non-volatile memory.
    NvmCtrl,
    /// The clock of the pin controller.
    Port,
    /// The clock of the DMA controller.
    Dmac,
    /// The clock of the USB peripheral.
    Usb,
    /// The clock of the third peripheral access controller.
    Pac2,
    /// The clock of the event system.
    EvSys,
    /// The clock of serial interface 0.
    Sercom0,
    /// The clock of serial interface 1.
    Sercom1,
    /// The clock of serial interface 2.
    Sercom2,
    /// The clock of serial interface 3.
    Sercom3,
    /// The clock of timer for control 0.
    Tcc0,
    /// The clock of timer for control 1.
    Tcc1,
    /// The clock of timer for control 2.
    Tcc2,
    /// The clock of timer 3.
    Tc3,
    /// The clock of timer 4.
    Tc4,
    /// The clock of timer 5.
    Tc5,
    /// The clock of the analog to digital converter.
    Adc0,
    /// The clock of the analog comparators.
    Ac,
    /// The clock of the digital to analog converter.
    Dac,
    /// The clock of the touch controller.
    Ptc,
    /// The clock of the inter-IC sound interface.
    I2S,
    /// The clock of the second pair of analog comparators.
    Ac1,
}

impl DynApbId {
    /// The bridge whose mask register holds the clock's bit.
    pub open spec fn bridge_spec(self) -> Bridge {
        match self {
            DynApbId::Pac0 => Bridge::A,
            DynApbId::Pm => Bridge::A,
            DynApbId::SysCtrl => Bridge::A,
            DynApbId::Gclk => Bridge::A,
            DynApbId::Wdt => Bridge::A,
            DynApbId::Rtc => Bridge::A,
            DynApbId::Eic => Bridge::A,
            DynApbId::Pac1 => Bridge::B,
            DynApbId::Dsu => Bridge::B,
            DynApbId::NvmCtrl => Bridge::B,
            DynApbId::Port => Bridge::B,
            DynApbId::Dmac => Bridge::B,
            DynApbId::Usb => Bridge::B,
            DynApbId::Pac2 => Bridge::C,
            DynApbId::EvSys => Bridge::C,
            DynApbId::Sercom0 => Bridge::C,
            DynApbId::Sercom1 => Bridge::C,
            DynApbId::Sercom2 => Bridge::C,
            DynApbId::Sercom3 => Bridge::C,
            DynApbId::Tcc0 => Bridge::C,
            DynApbId::Tcc1 => Bridge::C,
            DynApbId::Tcc2 => Bridge::C,
            DynApbId::Tc3 => Bridge::C,
            DynApbId::Tc4 => Bridge::C,
            DynApbId::Tc5 => Bridge::C,
            DynApbId::Adc0 => Bridge::C,
            DynApbId::Ac => Bridge::C,
            DynApbId::Dac => Bridge::C,
            DynApbId::Ptc => Bridge::C,
            DynApbId::I2S => Bridge::C,
            DynApbId::Ac1 => Bridge::C,
        }
    }

    /// Position of the clock's bit in the mask register.
    pub open spec fn bit_spec(self) -> u32 {
        match self {
            DynApbId::Pac0 => 0,
            DynApbId::Pm => 1,
            DynApbId::SysCtrl => 2,
            DynApbId::Gclk => 3,
            DynApbId::Wdt => 4,
            DynApbId::Rtc => 5,
            DynApbId::Eic => 6,
            DynApbId::Pac1 => 0,
            DynApbId::Dsu => 1,
            DynApbId::NvmCtrl => 2,
            DynApbId::Port => 3,
            DynApbId::Dmac => 4,
            DynApbId::Usb => 5,
            DynApbId::Pac2 => 0,
            DynApbId::EvSys => 1,
            DynApbId::Sercom0 => 2,
            DynApbId::Sercom1 => 3,
            DynApbId::Sercom2 => 4,
            DynApbId::Sercom3 => 5,
            DynApbId::Tcc0 => 8,
            DynApbId::Tcc1 => 9,
            DynApbId::Tcc2 => 10,
            DynApbId::Tc3 => 11,
            DynApbId::Tc4 => 12,
            DynApbId::Tc5 => 13,
            DynApbId::Adc0 => 16,
            DynApbId::Ac => 17,
            DynApbId::Dac => 18,
            DynApbId::Ptc => 19,
            DynApbId::I2S => 20,
            DynApbId::Ac1 => 21,
        }
    }

    pub fn bridge(self) -> (bridge: Bridge)
        ensures
            bridge == self.bridge_spec(),
    {
        match self {
            DynApbId::Pac0 => Bridge::A,
            DynApbId::Pm => Bridge::A,
            DynApbId::SysCtrl => Bridge::A,
            DynApbId::Gclk => Bridge::A,
            DynApbId::Wdt => Bridge::A,
            DynApbId::Rtc => Bridge::A,
            DynApbId::Eic => Bridge::A,
            DynApbId::Pac1 => Bridge::B,
            DynApbId::Dsu => Bridge::B,
            DynApbId::NvmCtrl => Bridge::B,
            DynApbId::Port => Bridge::B,
            DynApbId::Dmac => Bridge::B,
            DynApbId::Usb => Bridge::B,
            DynApbId::Pac2 => Bridge::C,
            DynApbId::EvSys => Bridge::C,
            DynApbId::Sercom0 => Bridge::C,
            DynApbId::Sercom1 => Bridge::C,
            DynApbId::Sercom2 => Bridge::C,
            DynApbId::Sercom3 => Bridge::C,
            DynApbId::Tcc0 => Bridge::C,
            DynApbId::Tcc1 => Bridge::C,
            DynApbId::Tcc2 => Bridge::C,
            DynApbId::Tc3 => Bridge::C,
            DynApbId::Tc4 => Bridge::C,
            DynApbId::Tc5 => Bridge::C,
            DynApbId::Adc0 => Bridge::C,
            DynApbId::Ac => Bridge::C,
            DynApbId::Dac => Bridge::C,
            DynApbId::Ptc => Bridge::C,
            DynApbId::I2S => Bridge::C,
            DynApbId::Ac1 => Bridge::C,
        }
    }

    pub fn bit(self) -> (bit: u32)
        ensures
            bit == self.bit_spec(),
            bit < 32,
    {
        match self {
            DynApbId::Pac0 => 0,
            DynApbId::Pm => 1,
            DynApbId::SysCtrl => 2,
            DynApbId::Gclk => 3,
            DynApbId::Wdt => 4,
            DynApbId::Rtc => 5,
            DynApbId::Eic => 6,
            DynApbId::Pac1 => 0,
            DynApbId::Dsu => 1,
            DynApbId::NvmCtrl => 2,
            DynApbId::Port => 3,
            DynApbId::Dmac => 4,
            DynApbId::Usb => 5,
            DynApbId::Pac2 => 0,
            DynApbId::EvSys => 1,
            DynApbId::Sercom0 => 2,
            DynApbId::Sercom1 => 3,
            DynApbId::Sercom2 => 4,
            DynApbId::Sercom3 => 5,
            DynApbId::Tcc0 => 8,
            DynApbId::Tcc1 => 9,
            DynApbId::Tcc2 => 10,
            DynApbId::Tc3 => 11,
            DynApbId::Tc4 => 12,
            DynApbId::Tc5 => 13,
            DynApbId::Adc0 => 16,
            DynApbId::Ac => 17,
            DynApbId::Dac => 18,
            DynApbId::Ptc => 19,
            DynApbId::I2S => 20,
            DynApbId::Ac1 => 21,
        }
    }
}

/// A mask for the mask register of one bridge.
#[derive(Clone, Copy, PartialEq, Eq, Structural, Debug)]
pub enum ApbMask {
    A(u32),
    B(u32),
    C(u32),
}

impl ApbMask {
    /// The mask that has the bit of the clock `id` set and no other, for
    /// the register of the clock's bridge.
    pub open spec fn of(id: DynApbId) -> ApbMask {
        let bits = 1u32 << id.bit_spec();
        match id.bridge_spec() {
            Bridge::A => ApbMask::A(bits),
            Bridge::B => ApbMask::B(bits),
            Bridge::C => ApbMask::C(bits),
        }
    }
}

impl From<DynApbId> for ApbMask {
    fn from(id: DynApbId) -> (mask: ApbMask) {
        let bits = 1u32 << id.bit();
        match id.bridge() {
            Bridge::A => ApbMask::A(bits),
            Bridge::B => ApbMask::B(bits),
            Bridge::C => ApbMask::C(bits),
        }
    }
}

impl FromSpecImpl<DynApbId> for ApbMask {
    open spec fn obeys_from_spec() -> bool {
        true
    }

    open spec fn from_spec(id: DynApbId) -> ApbMask {
        ApbMask::of(id)
    }
}

/// The mask registers of the three bridges.
pub struct Apb {
    apbamask: u32,
    apbbmask: u32,
    apbcmask: u32,
}

impl Apb {
    /// The mask register of bridge A.
    pub closed spec fn a(self) -> u32 {
        self.apbamask
    }

    /// The mask register of bridge B.
    pub closed spec fn b(self) -> u32 {
        self.apbbmask
    }

    /// The mask register of bridge C.
    pub closed spec fn c(self) -> u32 {
        self.apbcmask
    }

    /// Whether `after` is `self` with the bits of `mask` set in the
    /// register that `mask` is for, and nothing else changed.
    pub open spec fn set_in(self, after: Apb, mask: ApbMask) -> bool {
        match mask {
            ApbMask::A(bits) => after.a() == self.a() | bits && after.b() == self.b() && after.c()
                == self.c(),
            ApbMask::B(bits) => after.a() == self.a() && after.b() == self.b() | bits && after.c()
                == self.c(),
            ApbMask::C(bits) => after.a() == self.a() && after.b() == self.b() && after.c()
                == self.c() | bits,
        }
    }

    /// Whether `after` is `self` with the bits of `mask` cleared in the
    /// register that `mask` is for, and nothing else changed.
    pub open spec fn cleared_in(self, after: Apb, mask: ApbMask) -> bool {
        match mask {
            ApbMask::A(bits) => after.a() == self.a() & !bits && after.b() == self.b()
                && after.c() == self.c(),
            ApbMask::B(bits) => after.a() == self.a() && after.b() == self.b() & !bits
                && after.c() == self.c(),
            ApbMask::C(bits) => after.a() == self.a() && after.b() == self.b() && after.c()
                == self.c() & !bits,
        }
    }

    /// Whether the clock `id` runs.
    pub open spec fn runs(self, id: DynApbId) -> bool {
        let bits = 1u32 << id.bit_spec();
        match id.bridge_spec() {
            Bridge::A => self.a() & bits == bits,
            Bridge::B => self.b() & bits == bits,
            Bridge::C => self.c() & bits == bits,
        }
    }

    /// The registers with the given contents.
    pub fn new(apbamask: u32, apbbmask: u32, apbcmask: u32) -> (apb: Self)
        ensures
            apb.a() == apbamask,
            apb.b() == apbbmask,
            apb.c() == apbcmask,
    {
        Apb { apbamask, apbbmask, apbcmask }
    }

    /// Reads the mask register of bridge A.
    pub fn apbamask(&self) -> (bits: u32)
        ensures
            bits == self.a(),
    {
        self.apbamask
    }

    /// Reads the mask register of bridge B.
    pub fn apbbmask(&self) -> (bits: u32)
        ensures
            bits == self.b(),
    {
        self.apbbmask
    }

    /// Reads the mask register of bridge C.
    pub fn apbcmask(&self) -> (bits: u32)
        ensures
            bits == self.c(),
    {
        self.apbcmask
    }

    /// Sets the bits of `mask` in the register that `mask` is for.
    pub fn enable_mask(&mut self, mask: ApbMask)
        ensures
            old(self).set_in(*final(self), mask),
    {
        match mask {
            ApbMask::A(bits) => {
                self.apbamask = self.apbamask | bits;
            },
            ApbMask::B(bits) => {
                self.apbbmask = self.apbbmask | bits;
            },
            ApbMask::C(bits) => {
                self.apbcmask = self.apbcmask | bits;
            },
        }
    }

    /// Clears the bits of `mask` in the register that `mask` is for.
    pub fn disable_mask(&mut self, mask: ApbMask)
        ensures
            old(self).cleared_in(*final(self), mask),
    {
        match mask {
            ApbMask::A(bits) => {
                self.apbamask = self.apbamask & !bits;
            },
            ApbMask::B(bits) => {
                self.apbbmask = self.apbbmask & !bits;
            },
            ApbMask::C(bits) => {
                self.apbcmask = self.apbcmask & !bits;
            },
        }
    }

    /// Switches on the clock that `token` stands for, and gives the clock
    /// in exchange for the token.
    pub fn enable<A: ApbId>(&mut self, token: ApbToken<A>) -> (clock: ApbClk<A>)
        ensures
            old(self).set_in(*final(self), ApbMask::of(A::DYN)),
    {
        self.enable_mask(ApbMask::from(A::DYN));
        ApbClk::new(token)
    }

    /// Switches off `clock`, and gives its token in exchange.
    pub fn disable<A: ApbId>(&mut self, clock: ApbClk<A>) -> (token: ApbToken<A>)
        ensures
            old(self).cleared_in(*final(self), ApbMask::of(A::DYN)),
    {
        self.disable_mask(ApbMask::from(A::DYN));
        clock.free()
    }
}

/// A type that names one bus clock.
pub trait ApbId: Sealed {
    /// The clock as a value.
    const DYN: DynApbId;
}

impl ApbId for Pac0 {
    const DYN: DynApbId = DynApbId::Pac0;
}

impl ApbId for Pm {
    const DYN: DynApbId = DynApbId::Pm;
}

impl ApbId for SysCtrl {
    const DYN: DynApbId = DynApbId::SysCtrl;
}

impl ApbId for Gclk {
    const DYN: DynApbId = DynApbId::Gclk;
}

impl ApbId for Wdt {
    const DYN: DynApbId = DynApbId::Wdt;
}

impl ApbId for Rtc {
    const DYN: DynApbId = DynApbId::Rtc;
}

impl ApbId for Eic {
    const DYN: DynApbId = DynApbId::Eic;
}

impl ApbId for Pac1 {
    const DYN: DynApbId = DynApbId::Pac1;
}

impl ApbId for Dsu {
    const DYN: DynApbId = DynApbId::Dsu;
}

impl ApbId for NvmCtrl {
    const DYN: DynApbId = DynApbId::NvmCtrl;
}

impl ApbId for Port {
    const DYN: DynApbId = DynApbId::Port;
}

impl ApbId for Dmac {
    const DYN: DynApbId = DynApbId::Dmac;
}

impl ApbId for Usb {
    const DYN: DynApbId = DynApbId::Usb;
}

impl ApbId for Pac2 {
    const DYN: DynApbId = DynApbId::Pac2;
}

impl ApbId for EvSys {
    const DYN: DynApbId = DynApbId::EvSys;
}

impl ApbId for Sercom0 {
    const DYN: DynApbId = DynApbId::Sercom0;
}

impl ApbId for Sercom1 {
    const DYN: DynApbId = DynApbId::Sercom1;
}

impl ApbId for Sercom2 {
    const DYN: DynApbId = DynApbId::Sercom2;
}

impl ApbId for Sercom3 {
    const DYN: DynApbId = DynApbId::Sercom3;
}

impl ApbId for Tcc0 {
    const DYN: DynApbId = DynApbId::Tcc0;
}

impl ApbId for Tcc1 {
    const DYN: DynApbId = DynApbId::Tcc1;
}

impl ApbId for Tcc2 {
    const DYN: DynApbId = DynApbId::Tcc2;
}

impl ApbId for Tc3 {
    const DYN: DynApbId = DynApbId::Tc3;
}

impl ApbId for Tc4 {
    const DYN: DynApbId = DynApbId::Tc4;
}

impl ApbId for Tc5 {
    const DYN: DynApbId = DynApbId::Tc5;
}

impl ApbId for Adc0 {
    const DYN: DynApbId = DynApbId::Adc0;
}

impl ApbId for Ac {
    const DYN: DynApbId = DynApbId::Ac;
}

impl ApbId for Dac {
    const DYN: DynApbId = DynApbId::Dac;
}

impl ApbId for Ptc {
    const DYN: DynApbId = DynApbId::Ptc;
}

impl ApbId for I2S {
    const DYN: DynApbId = DynApbId::I2S;
}

impl ApbId for Ac1 {
    const DYN: DynApbId = DynApbId::Ac1;
}

/// A bus clock that is off. Whoever makes tokens sees to it that there is
/// one for each clock and no more.
pub struct ApbToken<A: ApbId> {
    id: PhantomData<A>,
}

impl<A: ApbId> ApbToken<A> {
    pub fn new() -> Self {
        ApbToken { id: PhantomData }
    }
}

/// A bus clock that is on.
pub struct ApbClk<A: ApbId> {
    token: ApbToken<A>,
}

impl<A: ApbId> ApbClk<A> {
    fn new(token: ApbToken<A>) -> Self {
        ApbClk { token }
    }

    fn free(self) -> ApbToken<A> {
        self.token
    }
}

/// Two clocks never share a bit: clocks on one bridge have different
/// positions in its register.
pub proof fn lemma_clocks_have_their_own_bits(id: DynApbId, other: DynApbId)
    requires
        id != other,
        id.bridge_spec() == other.bridge_spec(),
    ensures
        id.bit_spec() != other.bit_spec(),
        id.bit_spec() < 32,
        other.bit_spec() < 32,
{
}

/// Switching a clock on makes it run, and leaves every other clock as it
/// was.
pub proof fn lemma_enable_switches_one_clock(before: Apb, after: Apb, id: DynApbId, other: DynApbId)
    requires
        before.set_in(after, ApbMask::of(id)),
    ensures
        after.runs(id),
        other != id ==> after.runs(other) == before.runs(other),
{
    let i = id.bit_spec();
    let j = other.bit_spec();
    assert(i < 32 && j < 32);
    assert forall|r: u32| i < 32 implies (#[trigger] (r | (1u32 << i))) & (1u32 << i) == (1u32 << i) by {
        assert(i < 32 ==> (r | (1u32 << i)) & (1u32 << i) == (1u32 << i)) by (bit_vector);
    }
    if other != id && id.bridge_spec() == other.bridge_spec() {
        lemma_clocks_have_their_own_bits(id, other);
        assert forall|r: u32| i < 32 && j < 32 && i != j implies ((#[trigger] (r | (1u32 << i))) & (1u32
            << j) == (1u32 << j)) == (r & (1u32 << j) == (1u32 << j)) by {
            assert(i < 32 && j < 32 && i != j ==> (((r | (1u32 << i)) & (1u32 << j) == (1u32 << j))
                == (r & (1u32 << j) == (1u32 << j)))) by (bit_vector);
        }
    }
}

/// Switching a clock off stops it, and leaves every other clock as it was.
pub proof fn lemma_disable_switches_one_clock(
    before: Apb,
    after: Apb,
    id: DynApbId,
    other: DynApbId,
)
    requires
        before.cleared_in(after, ApbMask::of(id)),
    ensures
        !after.runs(id),
        other != id ==> after.runs(other) == before.runs(other),
{
    let i = id.bit_spec();
    let j = other.bit_spec();
    assert(i < 32 && j < 32);
    assert forall|r: u32| i < 32 implies (#[trigger] (r & !(1u32 << i))) & (1u32 << i) != (1u32 << i) by {
        assert(i < 32 ==> (r & !(1u32 << i)) & (1u32 << i) != (1u32 << i)) by (bit_vector);
    }
    if other != id && id.bridge_spec() == other.bridge_spec() {
        lemma_clocks_have_their_own_bits(id, other);
        assert forall|r: u32| i < 32 && j < 32 && i != j implies ((#[trigger] (r & !(1u32 << i))) & (1u32
            << j) == (1u32 << j)) == (r & (1u32 << j) == (1u32 << j)) by {
            assert(i < 32 && j < 32 && i != j ==> (((r & !(1u32 << i)) & (1u32 << j) == (1u32
                << j)) == (r & (1u32 << j) == (1u32 << j)))) by (bit_vector);
        }
    }
}

} // verus!
