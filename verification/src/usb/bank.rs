//! One direction of one endpoint, as the driver handles it: the status and
//! interrupt registers of that direction, and its descriptor.
//!
//! A bank is ready when its buffer holds data: for the IN direction, data
//! that waits to be sent; for the OUT direction, data that was received and
//! waits to be read.

use crate::usb::buffers::{buffer_tier, supported_packet_size, tier_of};
use crate::usb::device::{
    Device, DeviceDescBank, EndpointDescriptors, EpIntFlags, EpRegisters, EpStatus,
};
use crate::usb::endpoints::{EPConfig, ENDPOINT_COUNT};
use crate::usb::types::{UsbDirection, UsbError};
use core::marker::PhantomData;
use vstd::prelude::*;

verus! {

/// Marks a bank of the IN direction, bank 1.
#[derive(Clone, Copy, Debug)]
pub struct InBank;

/// Marks a bank of the OUT direction, bank 0.
#[derive(Clone, Copy, Debug)]
pub struct OutBank;

/// A buffer that the caller lends to the DMA engine.
#[derive(Clone, Copy, PartialEq, Eq, Structural, Debug)]
pub struct DmaBuffer {
    /// Address of the buffer's first byte.
    pub address: usize,
    /// Capacity of the buffer in bytes.
    pub size: usize,
}

/// A buffer that the DMA engine has filled and gives back.
#[derive(Clone, Copy, PartialEq, Eq, Structural, Debug)]
pub struct UsbReadBuffer {
    /// Address of the buffer's first byte.
    pub pointer: usize,
    /// Capacity that the buffer was lent with.
    pub size: usize,
}

/// The status bit that says that the bank of direction `dir` is ready.
pub open spec fn ready_mask(dir: UsbDirection) -> EpStatus {
    match dir {
        UsbDirection::Out => EpStatus { bk0rdy: true, ..EpStatus::none() },
        UsbDirection::In => EpStatus { bk1rdy: true, ..EpStatus::none() },
    }
}

/// The status bit that requests a stall for direction `dir`.
pub open spec fn stall_mask(dir: UsbDirection) -> EpStatus {
    match dir {
        UsbDirection::Out => EpStatus { stallrq0: true, ..EpStatus::none() },
        UsbDirection::In => EpStatus { stallrq1: true, ..EpStatus::none() },
    }
}

/// The flags that record the end of a transfer in direction `dir`, whether
/// it went well or not.
pub open spec fn transfer_mask(dir: UsbDirection) -> EpIntFlags {
    match dir {
        UsbDirection::Out => EpIntFlags { trcpt0: true, trfail0: true, ..EpIntFlags::none() },
        UsbDirection::In => EpIntFlags { trcpt1: true, trfail1: true, ..EpIntFlags::none() },
    }
}

/// The flag that records a received SETUP packet.
pub open spec fn setup_mask() -> EpIntFlags {
    EpIntFlags { rxstp: true, ..EpIntFlags::none() }
}

/// The interrupt sources that the driver unmasks for direction `dir`.
pub open spec fn interrupt_mask(dir: UsbDirection) -> EpIntFlags {
    match dir {
        UsbDirection::Out => EpIntFlags {
            rxstp: true,
            trfail0: true,
            trcpt0: true,
            ..EpIntFlags::none()
        },
        UsbDirection::In => EpIntFlags { trcpt1: true, ..EpIntFlags::none() },
    }
}

/// Whether the bank of direction `dir` is ready.
pub open spec fn ready(regs: EpRegisters, dir: UsbDirection) -> bool {
    match dir {
        UsbDirection::Out => regs.status.bk0rdy,
        UsbDirection::In => regs.status.bk1rdy,
    }
}

/// Whether a stall is requested for direction `dir`.
pub open spec fn stalled(regs: EpRegisters, dir: UsbDirection) -> bool {
    match dir {
        UsbDirection::Out => regs.status.stallrq0,
        UsbDirection::In => regs.status.stallrq1,
    }
}

/// Whether a transfer in direction `dir` has completed and has not been
/// acknowledged.
pub open spec fn transfer_complete(regs: EpRegisters, dir: UsbDirection) -> bool {
    match dir {
        UsbDirection::Out => regs.intflag.trcpt0,
        UsbDirection::In => regs.intflag.trcpt1,
    }
}

/// The registers after the ready bit of direction `dir` has been set or
/// cleared while the endpoint's descriptors were `descs`.
pub open spec fn with_ready(
    regs: EpRegisters,
    dir: UsbDirection,
    value: bool,
    descs: EndpointDescriptors,
) -> EpRegisters {
    if value {
        regs.status_set(ready_mask(dir), descs)
    } else {
        regs.status_cleared(ready_mask(dir), descs)
    }
}

/// The registers after the stall request of direction `dir` has been set or
/// cleared.
pub open spec fn with_stall(regs: EpRegisters, dir: UsbDirection, value: bool) -> EpRegisters {
    if value {
        regs.status_set(stall_mask(dir), regs.armed)
    } else {
        regs.status_cleared(stall_mask(dir), regs.armed)
    }
}

/// The descriptor that a configuration asks for: its buffer, the capacity
/// that holds its largest packet, and no data.
pub open spec fn flushed(config: EPConfig) -> DeviceDescBank {
    DeviceDescBank {
        address: config.addr,
        endpoint_size: tier_of(config.max_packet_size as int) as u16,
        multi_packet_size: 0,
        byte_count: 0,
    }
}

/// The descriptor after its buffer has been handed over with `count` bytes
/// in it.
pub open spec fn loaded(desc: DeviceDescBank, count: u16) -> DeviceDescBank {
    DeviceDescBank { multi_packet_size: 0, byte_count: count, ..desc }
}

/// The descriptor after its buffer has been replaced by the one at
/// `address`, with `count` bytes in it.
pub open spec fn rearmed(desc: DeviceDescBank, address: usize, count: u16) -> DeviceDescBank {
    DeviceDescBank { address, multi_packet_size: 0, byte_count: count, ..desc }
}

/// Whether the DMA engine accepts a buffer at this address.
pub open spec fn dma_aligned(address: int) -> bool {
    address % 32 == 0
}

/// Where a packet lies in memory.
#[derive(Clone, Copy, PartialEq, Eq, Structural, Debug)]
pub struct Packet {
    /// Address of the packet's first byte.
    pub address: usize,
    /// Number of bytes of the packet.
    pub count: usize,
}

/// Whether the `count` bytes at `addr` are bytes that the driver itself
/// copies: there are some, and they lie in the packet memory. Bytes that
/// lie elsewhere, in a buffer that was lent, are for the caller to copy.
pub open spec fn copied_here(dev: Device, addr: int, count: int) -> bool {
    count > 0 && dev.in_ram(addr, count)
}

/// Whether `after` holds the packet `data` in the IN bank of endpoint `idx`:
/// the descriptor gives the number of bytes, the bytes lie in the bank's
/// buffer where that is in the packet memory, and no other memory and no
/// address differs from `before`.
pub open spec fn packet_stored(before: Device, after: Device, idx: int, data: Seq<u8>) -> bool {
    let desc = before.desc(idx, UsbDirection::In);
    &&& after.same_layout(before)
    &&& after.descs_changed_at(before, idx, UsbDirection::In, loaded(desc, data.len() as u16))
    &&& if copied_here(before, desc.address as int, data.len() as int) {
        &&& after.ram_changed_at(before, desc.address as int, data)
        &&& after.packet(desc.address as int, data.len() as int) == data
    } else {
        after.ram == before.ram
    }
}

/// Number of bytes that the descriptor of the OUT bank of endpoint `idx`
/// reports as received.
pub open spec fn received(dev: Device, idx: int) -> int {
    dev.desc(idx, UsbDirection::Out).byte_count as int
}

/// Where the packet lies that endpoint `idx` has received.
pub open spec fn received_packet(dev: Device, idx: int) -> Packet {
    Packet {
        address: dev.desc(idx, UsbDirection::Out).address,
        count: dev.desc(idx, UsbDirection::Out).byte_count as usize,
    }
}

/// The outcome of reading what endpoint `idx` has received into a buffer
/// of `len` bytes.
pub open spec fn read_outcome(dev: Device, idx: int, len: int) -> Result<usize, UsbError> {
    if received(dev, idx) > len {
        Err(UsbError::BufferOverflow)
    } else {
        Ok(received(dev, idx) as usize)
    }
}

/// What a buffer that held `before` holds after the packet received on
/// endpoint `idx` has been read into it: the packet at its front, where
/// the packet lies in the packet memory; what it held, where the packet
/// lies elsewhere.
pub open spec fn fetched(dev: Device, idx: int, before: Seq<u8>) -> Seq<u8> {
    let desc = dev.desc(idx, UsbDirection::Out);
    if copied_here(dev, desc.address as int, desc.byte_count as int) {
        dev.packet(desc.address as int, desc.byte_count as int) + before.skip(
            desc.byte_count as int,
        )
    } else {
        before
    }
}

/// A handle on one direction of one allocated endpoint. `T` is `InBank` or
/// `OutBank` and decides which registers and which descriptor the handle
/// works on.
pub struct Bank<T> {
    index: usize,
    config: EPConfig,
    loaned_buffer_size: usize,
    _phantom: PhantomData<T>,
}

impl<T> Bank<T> {
    #[verifier::type_invariant]
    spec fn inv(self) -> bool {
        self.index < ENDPOINT_COUNT
    }

    /// Index of the endpoint that the bank belongs to.
    pub closed spec fn index_spec(self) -> int {
        self.index as int
    }

    /// The configuration that the bank was allocated with.
    pub closed spec fn config_spec(self) -> EPConfig {
        self.config
    }

    /// Capacity of the buffer that was last lent through this handle.
    pub closed spec fn loaned_spec(self) -> int {
        self.loaned_buffer_size as int
    }

    /// A handle on endpoint `index`, allocated with `config`.
    pub fn new(index: usize, config: EPConfig) -> (bank: Self)
        requires
            index < ENDPOINT_COUNT,
        ensures
            bank.index_spec() == index,
            bank.config_spec() == config,
            bank.loaned_spec() == 0,
    {
        Bank { index, config, loaned_buffer_size: 0, _phantom: PhantomData }
    }

    pub fn index(&self) -> (index: usize)
        ensures
            index == self.index_spec(),
            index < ENDPOINT_COUNT,
    {
        proof {
            use_type_invariant(self);
        }
        self.index
    }

    pub fn config(&self) -> (config: EPConfig)
        ensures
            config == self.config_spec(),
    {
        self.config
    }
}

/// Sets or clears the ready bit of the bank of direction `dir`, through the
/// status set or status clear register.
fn write_ready(dev: &mut Device, idx: usize, dir: UsbDirection, value: bool)
    requires
        idx < ENDPOINT_COUNT,
    ensures
        final(dev).only_endpoint_changed(
            *old(dev),
            idx as int,
            with_ready(old(dev).regs(idx as int), dir, value, old(dev).descs(idx as int)),
        ),
{
    let mask = match dir {
        UsbDirection::Out => EpStatus {
            bk0rdy: true,
            bk1rdy: false,
            stallrq0: false,
            stallrq1: false,
        },
        UsbDirection::In => EpStatus {
            bk0rdy: false,
            bk1rdy: true,
            stallrq0: false,
            stallrq1: false,
        },
    };
    if value {
        dev.epstatusset(idx, mask);
    } else {
        dev.epstatusclr(idx, mask);
    }
}

/// Sets or clears the stall request of direction `dir`, through the status
/// set or status clear register.
fn write_stall(dev: &mut Device, idx: usize, dir: UsbDirection, value: bool)
    requires
        idx < ENDPOINT_COUNT,
    ensures
        final(dev).only_endpoint_changed(
            *old(dev),
            idx as int,
            with_stall(old(dev).regs(idx as int), dir, value),
        ),
{
    let mask = match dir {
        UsbDirection::Out => EpStatus {
            bk0rdy: false,
            bk1rdy: false,
            stallrq0: true,
            stallrq1: false,
        },
        UsbDirection::In => EpStatus {
            bk0rdy: false,
            bk1rdy: false,
            stallrq0: false,
            stallrq1: true,
        },
    };
    if value {
        dev.epstatusset(idx, mask);
    } else {
        dev.epstatusclr(idx, mask);
    }
}

/// Clears the flags that record the end of a transfer in direction `dir`.
fn acknowledge_transfer(dev: &mut Device, idx: usize, dir: UsbDirection)
    requires
        idx < ENDPOINT_COUNT,
    ensures
        final(dev).only_endpoint_changed(
            *old(dev),
            idx as int,
            old(dev).regs(idx as int).flags_cleared(transfer_mask(dir)),
        ),
{
    let mask = match dir {
        UsbDirection::Out => EpIntFlags {
            trcpt0: true,
            trcpt1: false,
            trfail0: true,
            trfail1: false,
            rxstp: false,
            stall0: false,
            stall1: false,
        },
        UsbDirection::In => EpIntFlags {
            trcpt0: false,
            trcpt1: true,
            trfail0: false,
            trfail1: true,
            rxstp: false,
            stall0: false,
            stall1: false,
        },
    };
    dev.epintflag_clear(idx, mask);
}

/// Unmasks the interrupt sources of direction `dir`.
fn unmask_interrupts(dev: &mut Device, idx: usize, dir: UsbDirection)
    requires
        idx < ENDPOINT_COUNT,
    ensures
        final(dev).only_endpoint_changed(
            *old(dev),
            idx as int,
            old(dev).regs(idx as int).interrupts_enabled(interrupt_mask(dir)),
        ),
{
    let mask = match dir {
        UsbDirection::Out => EpIntFlags {
            trcpt0: true,
            trcpt1: false,
            trfail0: true,
            trfail1: false,
            rxstp: true,
            stall0: false,
            stall1: false,
        },
        UsbDirection::In => EpIntFlags {
            trcpt0: false,
            trcpt1: true,
            trfail0: false,
            trfail1: false,
            rxstp: false,
            stall0: false,
            stall1: false,
        },
    };
    dev.epintenset(idx, mask);
}

/// Writes the descriptor that `config` asks for.
fn write_config(dev: &mut Device, idx: usize, dir: UsbDirection, config: EPConfig)
    requires
        idx < ENDPOINT_COUNT,
        supported_packet_size(config.max_packet_size as int),
    ensures
        final(dev).only_descriptor_changed(*old(dev), idx as int, dir, flushed(config)),
{
    let endpoint_size = match buffer_tier(config.max_packet_size) {
        Some(tier) => tier,
        None => 8,
    };
    dev.set_descriptor(
        idx,
        dir,
        DeviceDescBank {
            address: config.addr,
            endpoint_size,
            multi_packet_size: 0,
            byte_count: 0,
        },
    );
}

impl Bank<InBank> {
    /// Whether the bank holds data that waits to be sent.
    pub fn is_ready(&self, dev: &Device) -> (is_ready: bool)
        ensures
            is_ready == ready(dev.regs(self.index_spec()), UsbDirection::In),
    {
        dev.epstatus(self.index()).bk1rdy
    }

    /// Marks the bank as holding data to send, or as empty.
    pub fn set_ready(&self, dev: &mut Device, value: bool)
        ensures
            final(dev).only_endpoint_changed(
                *old(dev),
                self.index_spec(),
                with_ready(
                    old(dev).regs(self.index_spec()),
                    UsbDirection::In,
                    value,
                    old(dev).descs(self.index_spec()),
                ),
            ),
    {
        write_ready(dev, self.index(), UsbDirection::In, value);
    }

    /// Acknowledges that the last packet has been sent, or has failed.
    pub fn clear_transfer_complete(&self, dev: &mut Device)
        ensures
            final(dev).only_endpoint_changed(
                *old(dev),
                self.index_spec(),
                old(dev).regs(self.index_spec()).flags_cleared(transfer_mask(UsbDirection::In)),
            ),
    {
        acknowledge_transfer(dev, self.index(), UsbDirection::In);
    }

    /// Whether a packet has been sent since the last acknowledgement.
    pub fn is_transfer_complete(&self, dev: &Device) -> (complete: bool)
        ensures
            complete == transfer_complete(dev.regs(self.index_spec()), UsbDirection::In),
    {
        dev.epintflag(self.index()).trcpt1
    }

    /// Writes the bank's configuration to its descriptor.
    pub fn flush_config(&self, dev: &mut Device)
        requires
            supported_packet_size(self.config_spec().max_packet_size as int),
        ensures
            final(dev).only_descriptor_changed(
                *old(dev),
                self.index_spec(),
                UsbDirection::In,
                flushed(self.config_spec()),
            ),
    {
        write_config(dev, self.index(), UsbDirection::In, self.config);
    }

    /// Unmasks the bank's interrupt: transfer complete.
    pub fn setup_ep_interrupts(&self, dev: &mut Device)
        ensures
            final(dev).only_endpoint_changed(
                *old(dev),
                self.index_spec(),
                old(dev).regs(self.index_spec()).interrupts_enabled(
                    interrupt_mask(UsbDirection::In),
                ),
            ),
    {
        unmask_interrupts(dev, self.index(), UsbDirection::In);
    }

    /// How many bytes of a packet of `len` bytes the bank takes.
    pub open spec fn accepted(self, len: int) -> int {
        if len <= self.config_spec().allocated_size {
            len
        } else {
            self.config_spec().allocated_size as int
        }
    }

    /// Where the bank's buffer takes a packet of `len` bytes.
    pub open spec fn taken(self, dev: Device, len: int) -> Packet {
        Packet {
            address: dev.desc(self.index_spec(), UsbDirection::In).address,
            count: self.accepted(len) as usize,
        }
    }

    /// Where the bank's buffer takes a packet of `len` bytes. Nothing is
    /// changed.
    pub fn pending(&self, dev: &Device, len: usize) -> (packet: Packet)
        ensures
            packet == self.taken(*dev, len as int),
    {
        let count: usize = if len <= self.config.allocated_size as usize {
            len
        } else {
            self.config.allocated_size as usize
        };
        Packet { address: dev.descriptor(self.index(), UsbDirection::In).address, count }
    }

    /// Records a packet in the bank: its length goes into the descriptor,
    /// and its bytes into the bank's buffer, where the buffer lies in the
    /// packet memory. A packet longer than the buffer is cut to the
    /// buffer's size. Where the buffer lies elsewhere, the bytes are for
    /// the caller to copy, to the place that `pending` tells. Nothing is
    /// sent before the bank is set ready.
    pub fn write(&self, dev: &mut Device, buf: &[u8]) -> (result: Result<usize, UsbError>)
        ensures
            result == Ok::<usize, UsbError>(self.accepted(buf@.len() as int) as usize),
            final(dev).same_registers(*old(dev)),
            packet_stored(
                *old(dev),
                *final(dev),
                self.index_spec(),
                buf@.take(self.accepted(buf@.len() as int)),
            ),
    {
        let idx = self.index();
        let size: usize = if buf.len() <= self.config.allocated_size as usize {
            buf.len()
        } else {
            self.config.allocated_size as usize
        };
        let desc = dev.descriptor(idx, UsbDirection::In);
        if size != 0 && dev.contains(desc.address, size) {
            dev.store(desc.address, buf, size);
            assert(dev.packet(desc.address as int, size as int) =~= buf@.take(size as int));
        }
        let ghost mid = *dev;
        dev.set_descriptor(
            idx,
            UsbDirection::In,
            DeviceDescBank {
                address: desc.address,
                endpoint_size: desc.endpoint_size,
                multi_packet_size: 0,
                byte_count: size as u16,
            },
        );
        proof {
            assert forall|i: int, d: UsbDirection|
                0 <= i < ENDPOINT_COUNT && !(i == idx && d == UsbDirection::In)
                    implies #[trigger] dev.desc(i, d) == old(dev).desc(i, d) by {
                assert(mid.desc(i, d) == old(dev).desc(i, d));
            }
            assert(buf@.take(size as int).len() == size);
        }
        Ok(size)
    }

    /// Points the bank at a buffer of the caller's and records that
    /// `size_bytes` bytes of it are to be sent. The buffer must start at a
    /// multiple of 32 and hold at least `size_bytes` bytes. Nothing is sent
    /// before the bank is set ready.
    pub fn write_dma(&self, dev: &mut Device, buf: DmaBuffer, size_bytes: usize) -> (result:
        Result<(), UsbError>)
        ensures
            !dma_aligned(buf.address as int) ==> result == Err::<(), UsbError>(
                UsbError::Unsupported,
            ) && *final(dev) == *old(dev),
            dma_aligned(buf.address as int) && buf.size < size_bytes ==> result == Err::<
                (),
                UsbError,
            >(UsbError::BufferOverflow) && *final(dev) == *old(dev),
            dma_aligned(buf.address as int) && buf.size >= size_bytes ==> {
                &&& result.is_ok()
                &&& final(dev).only_descriptor_changed(
                    *old(dev),
                    self.index_spec(),
                    UsbDirection::In,
                    rearmed(
                        old(dev).desc(self.index_spec(), UsbDirection::In),
                        buf.address,
                        (size_bytes % 65536) as u16,
                    ),
                )
            },
    {
        if buf.address % 32 != 0 {
            return Err(UsbError::Unsupported);
        }
        if buf.size < size_bytes {
            return Err(UsbError::BufferOverflow);
        }
        let idx = self.index();
        let desc = dev.descriptor(idx, UsbDirection::In);
        dev.set_descriptor(
            idx,
            UsbDirection::In,
            DeviceDescBank {
                address: buf.address,
                endpoint_size: desc.endpoint_size,
                multi_packet_size: 0,
                byte_count: (size_bytes % 65536) as u16,
            },
        );
        Ok(())
    }

    /// Whether a stall is requested for IN transfers.
    pub fn is_stalled(&self, dev: &Device) -> (is_stalled: bool)
        ensures
            is_stalled == stalled(dev.regs(self.index_spec()), UsbDirection::In),
    {
        dev.epstatus(self.index()).stallrq1
    }

    /// Requests a stall for IN transfers, or withdraws the request.
    pub fn set_stall(&self, dev: &mut Device, stall: bool)
        ensures
            final(dev).only_endpoint_changed(
                *old(dev),
                self.index_spec(),
                with_stall(old(dev).regs(self.index_spec()), UsbDirection::In, stall),
            ),
    {
        write_stall(dev, self.index(), UsbDirection::In, stall);
    }
}

impl Bank<OutBank> {
    /// Whether the bank holds received data that waits to be read.
    pub fn is_ready(&self, dev: &Device) -> (is_ready: bool)
        ensures
            is_ready == ready(dev.regs(self.index_spec()), UsbDirection::Out),
    {
        dev.epstatus(self.index()).bk0rdy
    }

    /// Marks the bank as holding received data, or as free for the next
    /// packet.
    pub fn set_ready(&self, dev: &mut Device, value: bool)
        ensures
            final(dev).only_endpoint_changed(
                *old(dev),
                self.index_spec(),
                with_ready(
                    old(dev).regs(self.index_spec()),
                    UsbDirection::Out,
                    value,
                    old(dev).descs(self.index_spec()),
                ),
            ),
    {
        write_ready(dev, self.index(), UsbDirection::Out, value);
    }

    /// Acknowledges that a packet has been received, or has failed.
    pub fn clear_transfer_complete(&self, dev: &mut Device)
        ensures
            final(dev).only_endpoint_changed(
                *old(dev),
                self.index_spec(),
                old(dev).regs(self.index_spec()).flags_cleared(transfer_mask(UsbDirection::Out)),
            ),
    {
        acknowledge_transfer(dev, self.index(), UsbDirection::Out);
    }

    /// Whether a packet has been received since the last acknowledgement.
    pub fn is_transfer_complete(&self, dev: &Device) -> (complete: bool)
        ensures
            complete == transfer_complete(dev.regs(self.index_spec()), UsbDirection::Out),
    {
        dev.epintflag(self.index()).trcpt0
    }

    /// Whether a SETUP packet has been received and not yet acknowledged.
    pub fn received_setup_interrupt(&self, dev: &Device) -> (received: bool)
        ensures
            received == dev.regs(self.index_spec()).intflag.rxstp,
    {
        dev.epintflag(self.index()).rxstp
    }

    /// Acknowledges the SETUP packet.
    pub fn clear_received_setup_interrupt(&self, dev: &mut Device)
        ensures
            final(dev).only_endpoint_changed(
                *old(dev),
                self.index_spec(),
                old(dev).regs(self.index_spec()).flags_cleared(setup_mask()),
            ),
    {
        dev.epintflag_clear(
            self.index(),
            EpIntFlags {
                trcpt0: false,
                trcpt1: false,
                trfail0: false,
                trfail1: false,
                rxstp: true,
                stall0: false,
                stall1: false,
            },
        );
    }

    /// Writes the bank's configuration to its descriptor.
    pub fn flush_config(&self, dev: &mut Device)
        requires
            supported_packet_size(self.config_spec().max_packet_size as int),
        ensures
            final(dev).only_descriptor_changed(
                *old(dev),
                self.index_spec(),
                UsbDirection::Out,
                flushed(self.config_spec()),
            ),
    {
        write_config(dev, self.index(), UsbDirection::Out, self.config);
    }

    /// Unmasks the bank's interrupts: SETUP received, transfer failed and
    /// transfer complete.
    pub fn setup_ep_interrupts(&self, dev: &mut Device)
        ensures
            final(dev).only_endpoint_changed(
                *old(dev),
                self.index_spec(),
                old(dev).regs(self.index_spec()).interrupts_enabled(
                    interrupt_mask(UsbDirection::Out),
                ),
            ),
    {
        unmask_interrupts(dev, self.index(), UsbDirection::Out);
    }

    /// Where the received packet lies. Nothing is changed.
    pub fn pending(&self, dev: &Device) -> (packet: Packet)
        ensures
            packet == received_packet(*dev, self.index_spec()),
    {
        let desc = dev.descriptor(self.index(), UsbDirection::Out);
        Packet { address: desc.address, count: desc.byte_count as usize }
    }

    /// Takes the received packet: copies it to the front of `buf`, where
    /// it lies in the packet memory, and empties the descriptor. Where the
    /// packet lies elsewhere, in a buffer that was lent, `buf` is left as
    /// it is: the bytes are for the caller to copy, from the place that
    /// `pending` tells, before this is called. Fails, and changes nothing,
    /// when the packet is longer than `buf`. The bank takes no new packet
    /// before it is set not ready.
    pub fn read(&self, dev: &mut Device, buf: &mut [u8]) -> (result: Result<usize, UsbError>)
        ensures
            result == read_outcome(*old(dev), self.index_spec(), old(buf)@.len() as int),
            final(buf)@.len() == old(buf)@.len(),
            result.is_err() ==> *final(dev) == *old(dev) && final(buf)@ == old(buf)@,
            result.is_ok() ==> {
                let desc = old(dev).desc(self.index_spec(), UsbDirection::Out);
                &&& final(dev).only_descriptor_changed(
                    *old(dev),
                    self.index_spec(),
                    UsbDirection::Out,
                    loaded(desc, 0),
                )
                &&& final(buf)@ == fetched(*old(dev), self.index_spec(), old(buf)@)
            },
    {
        let idx = self.index();
        let desc = dev.descriptor(idx, UsbDirection::Out);
        let size: usize = desc.byte_count as usize;
        if size > buf.len() {
            return Err(UsbError::BufferOverflow);
        }
        if size != 0 && dev.contains(desc.address, size) {
            dev.load(desc.address, buf, size);
        }
        dev.set_descriptor(
            idx,
            UsbDirection::Out,
            DeviceDescBank {
                address: desc.address,
                endpoint_size: desc.endpoint_size,
                multi_packet_size: 0,
                byte_count: 0,
            },
        );
        Ok(size)
    }

    /// Replaces the bank's buffer by one of the caller's and gives back the
    /// buffer that was in place, with the number of bytes received into it.
    /// The new buffer must start at a multiple of 32 and be as large as the
    /// capacity that the descriptor announces.
    pub fn swap_read_dma(&mut self, dev: &mut Device, buf: DmaBuffer) -> (result: Result<
        (UsbReadBuffer, usize),
        UsbError,
    >)
        ensures
            final(self).index_spec() == old(self).index_spec(),
            final(self).config_spec() == old(self).config_spec(),
            !dma_aligned(buf.address as int) ==> {
                &&& result == Err::<(UsbReadBuffer, usize), UsbError>(UsbError::Unsupported)
                &&& *final(dev) == *old(dev)
                &&& final(self).loaned_spec() == old(self).loaned_spec()
            },
            dma_aligned(buf.address as int) && old(dev).desc(
                old(self).index_spec(),
                UsbDirection::Out,
            ).endpoint_size > buf.size ==> {
                &&& result == Err::<(UsbReadBuffer, usize), UsbError>(UsbError::BufferOverflow)
                &&& *final(dev) == *old(dev)
                &&& final(self).loaned_spec() == old(self).loaned_spec()
            },
            dma_aligned(buf.address as int) && old(dev).desc(
                old(self).index_spec(),
                UsbDirection::Out,
            ).endpoint_size <= buf.size ==> {
                let desc = old(dev).desc(old(self).index_spec(), UsbDirection::Out);
                &&& result == Ok::<(UsbReadBuffer, usize), UsbError>(
                    (
                        UsbReadBuffer {
                            pointer: desc.address,
                            size: old(self).loaned_spec() as usize,
                        },
                        desc.byte_count as usize,
                    ),
                )
                &&& final(self).loaned_spec() == buf.size
                &&& final(dev).only_descriptor_changed(
                    *old(dev),
                    old(self).index_spec(),
                    UsbDirection::Out,
                    rearmed(desc, buf.address, 0),
                )
            },
    {
        proof {
            use_type_invariant(&*self);
        }
        let idx = self.index;
        if buf.address % 32 != 0 {
            return Err(UsbError::Unsupported);
        }
        let desc = dev.descriptor(idx, UsbDirection::Out);
        if desc.endpoint_size as usize > buf.size {
            return Err(UsbError::BufferOverflow);
        }
        let old_buf = UsbReadBuffer { pointer: desc.address, size: self.loaned_buffer_size };
        self.loaned_buffer_size = buf.size;
        let read_size = desc.byte_count as usize;
        dev.set_descriptor(
            idx,
            UsbDirection::Out,
            DeviceDescBank {
                address: buf.address,
                endpoint_size: desc.endpoint_size,
                multi_packet_size: 0,
                byte_count: 0,
            },
        );
        Ok((old_buf, read_size))
    }

    /// Number of bytes that wait in the bank.
    pub fn can_read(&self, dev: &Device) -> (count: Option<usize>)
        ensures
            count == Some(received(*dev, self.index_spec()) as usize),
    {
        Some(dev.descriptor(self.index(), UsbDirection::Out).byte_count as usize)
    }

    /// Whether a stall is requested for OUT transfers.
    pub fn is_stalled(&self, dev: &Device) -> (is_stalled: bool)
        ensures
            is_stalled == stalled(dev.regs(self.index_spec()), UsbDirection::Out),
    {
        dev.epstatus(self.index()).stallrq0
    }

    /// Requests a stall for OUT transfers, or withdraws the request.
    pub fn set_stall(&self, dev: &mut Device, stall: bool)
        ensures
            final(dev).only_endpoint_changed(
                *old(dev),
                self.index_spec(),
                with_stall(old(dev).regs(self.index_spec()), UsbDirection::Out, stall),
            ),
    {
        write_stall(dev, self.index(), UsbDirection::Out, stall);
    }
}

} // verus!
