//! Directions, transfer types, endpoint addresses, errors and poll events.

use vstd::prelude::*;
use vstd::std_specs::convert::FromSpecImpl;

verus! {

/// Direction of a transfer, named from the host's side: `Out` is host to
/// device, `In` is device to host.
#[derive(Clone, Copy, PartialEq, Eq, Structural, Debug)]
pub enum UsbDirection {
    Out,
    In,
}

/// Transfer type that an endpoint is asked to carry.
#[derive(Clone, Copy, PartialEq, Eq, Structural, Debug)]
pub enum EndpointType {
    Control,
    Isochronous,
    Bulk,
    Interrupt,
}

/// Values of the type field of an endpoint configuration register, one field
/// per direction. `Disabled` marks a direction that nothing has claimed.
#[derive(Clone, Copy, PartialEq, Eq, Structural, Debug)]
pub enum EndpointTypeBits {
    Disabled,
    Control,
    Isochronous,
    Bulk,
    Interrupt,
    DualBank,
}

impl EndpointTypeBits {
    /// The number that the register field holds for this type.
    pub open spec fn code(self) -> u8 {
        match self {
            EndpointTypeBits::Disabled => 0,
            EndpointTypeBits::Control => 1,
            EndpointTypeBits::Isochronous => 2,
            EndpointTypeBits::Bulk => 3,
            EndpointTypeBits::Interrupt => 4,
            EndpointTypeBits::DualBank => 5,
        }
    }

    /// The type field's value of a transfer type.
    pub open spec fn of(ep_type: EndpointType) -> EndpointTypeBits {
        match ep_type {
            EndpointType::Control => EndpointTypeBits::Control,
            EndpointType::Isochronous => EndpointTypeBits::Isochronous,
            EndpointType::Bulk => EndpointTypeBits::Bulk,
            EndpointType::Interrupt => EndpointTypeBits::Interrupt,
        }
    }

    pub fn bits(self) -> (b: u8)
        ensures
            b == self.code(),
    {
        match self {
            EndpointTypeBits::Disabled => 0,
            EndpointTypeBits::Control => 1,
            EndpointTypeBits::Isochronous => 2,
            EndpointTypeBits::Bulk => 3,
            EndpointTypeBits::Interrupt => 4,
            EndpointTypeBits::DualBank => 5,
        }
    }
}

impl Default for EndpointTypeBits {
    fn default() -> (bits: Self)
        ensures
            bits == EndpointTypeBits::Disabled,
    {
        EndpointTypeBits::Disabled
    }
}

impl From<EndpointType> for EndpointTypeBits {
    fn from(ep_type: EndpointType) -> (bits: EndpointTypeBits) {
        match ep_type {
            EndpointType::Control => EndpointTypeBits::Control,
            EndpointType::Isochronous => EndpointTypeBits::Isochronous,
            EndpointType::Bulk => EndpointTypeBits::Bulk,
            EndpointType::Interrupt => EndpointTypeBits::Interrupt,
        }
    }
}

impl FromSpecImpl<EndpointType> for EndpointTypeBits {
    open spec fn obeys_from_spec() -> bool {
        true
    }

    open spec fn from_spec(ep_type: EndpointType) -> EndpointTypeBits {
        EndpointTypeBits::of(ep_type)
    }
}

/// What an operation of the bus reports in place of a result.
#[derive(Clone, Copy, PartialEq, Eq, Structural, Debug)]
pub enum UsbError {
    /// Nothing to do yet; the same call may succeed later.
    WouldBlock,
    /// A buffer is too small for the data that it should take.
    BufferOverflow,
    /// No endpoint is free, or the one asked for is taken.
    EndpointOverflow,
    /// The packet memory is used up.
    EndpointMemoryOverflow,
    /// The address names no allocated endpoint of the needed direction.
    InvalidEndpoint,
    /// The request is outside what the peripheral can do.
    Unsupported,
}

/// Outcome of one poll of the peripheral. Each mask of `Data` has bit `n` set
/// for endpoint `n`.
#[derive(Clone, Copy, PartialEq, Eq, Structural, Debug)]
pub enum PollResult {
    /// Nothing happened.
    Idle,
    /// The host has reset the bus.
    Reset,
    /// Endpoints need service.
    Data {
        /// OUT endpoints that hold a received packet.
        ep_out: u16,
        /// IN endpoints whose packet has been sent.
        ep_in_complete: u16,
        /// OUT endpoints that hold a SETUP packet.
        ep_setup: u16,
    },
}

/// The bit that marks the IN direction in an endpoint address.
pub open spec fn direction_bit(dir: UsbDirection) -> u8 {
    match dir {
        UsbDirection::Out => 0x00,
        UsbDirection::In => 0x80,
    }
}

/// `usb_device::endpoint::EndpointAddress::from_parts`, read as a byte: the
/// index cut down to eight bits, with the direction's bit set on top.
#[verifier::external_body]
fn address_from_parts(index: usize, dir: UsbDirection) -> (raw: u8)
    ensures
        raw == ((index % 256) as u8) | direction_bit(dir),
{
    let dir = match dir {
        UsbDirection::Out => usb_device::UsbDirection::Out,
        UsbDirection::In => usb_device::UsbDirection::In,
    };
    u8::from(usb_device::endpoint::EndpointAddress::from_parts(index, dir))
}

/// `usb_device::endpoint::EndpointAddress::index`: the address without its
/// direction bit.
#[verifier::external_body]
fn address_index(raw: u8) -> (index: usize)
    ensures
        index == raw & 0x7f,
{
    usb_device::endpoint::EndpointAddress::from(raw).index()
}

/// `usb_device::endpoint::EndpointAddress::is_in`: whether the direction bit
/// is set.
#[verifier::external_body]
fn address_is_in(raw: u8) -> (is_in: bool)
    ensures
        is_in == (raw & 0x80 != 0),
{
    usb_device::endpoint::EndpointAddress::from(raw).is_in()
}

/// `usb_device::endpoint::EndpointAddress::is_out`: whether the direction bit
/// is clear.
#[verifier::external_body]
fn address_is_out(raw: u8) -> (is_out: bool)
    ensures
        is_out == (raw & 0x80 == 0),
{
    usb_device::endpoint::EndpointAddress::from(raw).is_out()
}

/// Address of one direction of one endpoint: the endpoint's index in the low
/// seven bits and the direction in the top bit, as it travels on the bus.
#[derive(Clone, Copy, PartialEq, Eq, Structural, Debug)]
pub struct EndpointAddress {
    raw: u8,
}

impl EndpointAddress {
    /// The address as a byte.
    pub closed spec fn raw_spec(self) -> u8 {
        self.raw
    }

    /// The endpoint's index, 0 to 127.
    pub open spec fn index_spec(self) -> int {
        (self.raw_spec() & 0x7f) as int
    }

    /// The direction that the top bit gives.
    pub open spec fn direction_spec(self) -> UsbDirection {
        if self.raw_spec() & 0x80 != 0 {
            UsbDirection::In
        } else {
            UsbDirection::Out
        }
    }

    /// The address that `index` and `dir` make together.
    pub open spec fn parts(index: int, dir: UsbDirection) -> u8 {
        ((index % 256) as u8) | direction_bit(dir)
    }

    pub fn from_raw(raw: u8) -> (addr: Self)
        ensures
            addr.raw_spec() == raw,
    {
        EndpointAddress { raw }
    }

    pub fn raw(&self) -> (raw: u8)
        ensures
            raw == self.raw_spec(),
    {
        self.raw
    }

    /// Joins an index and a direction. An index below 128 is kept whole, and
    /// leaves the direction bit to `dir`.
    pub fn from_parts(index: usize, dir: UsbDirection) -> (addr: Self)
        ensures
            addr.raw_spec() == Self::parts(index as int, dir),
            index < 128 ==> addr.index_spec() == index && addr.direction_spec() == dir,
    {
        let raw = address_from_parts(index, dir);
        proof {
            lemma_address_round_trip(index as int % 256, dir);
        }
        EndpointAddress { raw }
    }

    pub fn index(&self) -> (index: usize)
        ensures
            index == self.index_spec(),
            index < 128,
    {
        let raw = self.raw;
        proof {
            assert(raw & 0x7f < 128) by (bit_vector);
        }
        address_index(self.raw)
    }

    pub fn is_in(&self) -> (is_in: bool)
        ensures
            is_in == (self.direction_spec() == UsbDirection::In),
    {
        address_is_in(self.raw)
    }

    pub fn is_out(&self) -> (is_out: bool)
        ensures
            is_out == (self.direction_spec() == UsbDirection::Out),
    {
        address_is_out(self.raw)
    }

    pub fn direction(&self) -> (dir: UsbDirection)
        ensures
            dir == self.direction_spec(),
    {
        if self.is_in() {
            UsbDirection::In
        } else {
            UsbDirection::Out
        }
    }
}

/// Taking an address apart gives back the index and the direction that it
/// was made of, for every index that an address has room for.
pub proof fn lemma_address_round_trip(index: int, dir: UsbDirection)
    ensures
        0 <= index < 128 ==> (EndpointAddress::parts(index, dir) & 0x7f) as int == index,
        0 <= index < 128 ==> (EndpointAddress::parts(index, dir) & 0x80 != 0) == (dir
            == UsbDirection::In),
{
    let low = (index % 256) as u8;
    assert(low < 128 ==> (low | 0x00u8) & 0x7f == low) by (bit_vector);
    assert(low < 128 ==> (low | 0x80u8) & 0x7f == low) by (bit_vector);
    assert(low < 128 ==> (low | 0x00u8) & 0x80 == 0) by (bit_vector);
    assert((low | 0x80u8) & 0x80 != 0) by (bit_vector);
}

} // verus!
