//! The bus controller: endpoint allocation, the life cycle of the
//! peripheral, polling, and the transfer of packets.

use crate::usb::bank::{
    dma_aligned, fetched, flushed, interrupt_mask, loaded, packet_stored, read_outcome, ready,
    rearmed, received, received_packet, setup_mask, stalled, transfer_complete, transfer_mask,
    with_ready, with_stall, Bank, DmaBuffer, InBank, OutBank, Packet, UsbReadBuffer,
};
use crate::usb::buffers::{buffer_tier, supported_packet_size, tier_of, BufferAllocator, BUFFER_SIZE};
use crate::usb::device::{
    Configuration, Device, DeviceDescBank, EndpointDescriptors, EpRegisters, IntFlags, Mode,
    Speed,
};
use crate::usb::endpoints::{AllEndpoints, EPConfig, ENDPOINT_COUNT};
use crate::usb::mask::{bit, set_bit, test_bit};
use crate::usb::types::{
    EndpointAddress, EndpointType, EndpointTypeBits, PollResult, UsbDirection, UsbError,
};
use vstd::prelude::*;

verus! {

/// How much of the endpoints' configuration is written to the peripheral.
#[derive(Clone, Copy, PartialEq, Eq, Structural, Debug)]
pub enum FlushConfigMode {
    /// Every endpoint is configured.
    Full,
    /// The configuration is restored after the host has reset the bus:
    /// endpoint 0 keeps its descriptors and its type, and only has its
    /// interrupts unmasked again.
    ProtocolReset,
}

/// The controller. It owns the endpoint registry and the allocator of
/// packet buffers; the peripheral is handed to each operation.
pub struct UsbBus {
    endpoints: AllEndpoints,
    buffers: BufferAllocator,
}

impl UsbBus {
    #[verifier::type_invariant]
    spec fn inv(self) -> bool {
        self.wf()
    }

    /// The endpoint registry.
    pub closed spec fn registry(self) -> AllEndpoints {
        self.endpoints
    }

    /// The allocator of packet buffers.
    pub closed spec fn allocator(self) -> BufferAllocator {
        self.buffers
    }

    /// Every allocated direction has a packet size that the peripheral can
    /// carry, and the allocator is well formed.
    pub open spec fn wf(self) -> bool {
        &&& self.allocator().wf()
        &&& self.registry().all_supported()
    }

    /// Whether `ep` names an allocated endpoint of direction `dir`.
    pub open spec fn has_bank(self, ep: EndpointAddress, dir: UsbDirection) -> bool {
        &&& ep.direction_spec() == dir
        &&& ep.index_spec() < ENDPOINT_COUNT
        &&& self.registry().config(ep.index_spec(), dir).is_allocated()
    }

    /// The endpoint that an allocation for direction `dir` goes to: the one
    /// that `addr` names, or else the lowest free one above endpoint 0.
    /// No endpoint at all when the answer is not below the number of
    /// endpoints.
    pub open spec fn target(self, dir: UsbDirection, addr: Option<EndpointAddress>) -> int {
        match addr {
            Some(addr) => addr.index_spec(),
            None => self.registry().first_free(dir, 1),
        }
    }

    /// Whether `after` is `self` with direction `dir` of endpoint `idx`
    /// configured as `config`, and the allocator as `allocator`.
    pub open spec fn committed(
        self,
        after: UsbBus,
        idx: int,
        dir: UsbDirection,
        config: EPConfig,
        allocator: BufferAllocator,
    ) -> bool {
        &&& after.allocator() == allocator
        &&& after.registry().config(idx, dir) == config
        &&& forall|i: int, d: UsbDirection|
            0 <= i < ENDPOINT_COUNT && !(i == idx && d == dir) ==> #[trigger] after.registry().config(i, d)
                == self.registry().config(i, d)
    }

    /// Whether `after` is `self` but for its allocator, which is
    /// `allocator`.
    pub open spec fn kept(self, after: UsbBus, allocator: BufferAllocator) -> bool {
        &&& after.allocator() == allocator
        &&& after.registry() == self.registry()
    }

    /// What an allocation answers once its packet size has been accepted
    /// and its buffer is known: the endpoint's address, or why the
    /// endpoint cannot be had.
    pub open spec fn commit_result(self, dir: UsbDirection, addr: Option<EndpointAddress>)
        -> Result<u8, UsbError> {
        let idx = self.target(dir, addr);
        if idx >= ENDPOINT_COUNT {
            if addr is Some {
                Err(UsbError::InvalidEndpoint)
            } else {
                Err(UsbError::EndpointOverflow)
            }
        } else if !self.registry().is_free(idx, dir) {
            Err(UsbError::EndpointOverflow)
        } else {
            Ok(EndpointAddress::parts(idx, dir))
        }
    }

    /// A controller for the peripheral `dev`, with no endpoint allocated
    /// and the whole packet memory free.
    pub fn new(dev: &Device) -> (bus: Self)
        requires
            dev.ram_base + BUFFER_SIZE <= usize::MAX,
        ensures
            bus.wf(),
            bus.allocator().base() == dev.ram_base,
            bus.allocator().used() == 0,
            forall|idx: int, dir: UsbDirection|
                0 <= idx < ENDPOINT_COUNT ==> #[trigger] bus.registry().config(idx, dir) == EPConfig::free(),
    {
        UsbBus { endpoints: AllEndpoints::new(), buffers: BufferAllocator::new(dev.ram_base) }
    }

    /// The configuration of direction `dir` of endpoint `idx`.
    pub fn endpoint_config(&self, idx: usize, dir: UsbDirection) -> (config: EPConfig)
        requires
            idx < ENDPOINT_COUNT,
        ensures
            config == self.registry().config(idx as int, dir),
            config.is_allocated() ==> supported_packet_size(config.max_packet_size as int),
    {
        proof {
            use_type_invariant(self);
        }
        self.endpoints.get(idx, dir)
    }

    /// A handle on the OUT bank that `ep` names. Fails when `ep` is an IN
    /// address, or names no endpoint, or one whose OUT direction is not
    /// allocated.
    pub fn bank0(&self, ep: EndpointAddress) -> (result: Result<Bank<OutBank>, UsbError>)
        ensures
            match result {
                Ok(bank) => {
                    &&& self.has_bank(ep, UsbDirection::Out)
                    &&& bank.index_spec() == ep.index_spec()
                    &&& bank.config_spec() == self.registry().config(ep.index_spec(), UsbDirection::Out)
                    &&& bank.loaned_spec() == 0
                    &&& supported_packet_size(bank.config_spec().max_packet_size as int)
                },
                Err(e) => e == UsbError::InvalidEndpoint && !self.has_bank(ep, UsbDirection::Out),
            },
    {
        if ep.is_in() {
            return Err(UsbError::InvalidEndpoint);
        }
        let idx = ep.index();
        if idx >= ENDPOINT_COUNT {
            return Err(UsbError::InvalidEndpoint);
        }
        let config = self.endpoint_config(idx, UsbDirection::Out);
        if config.ep_type == EndpointTypeBits::Disabled {
            return Err(UsbError::InvalidEndpoint);
        }
        Ok(Bank::new(idx, config))
    }

    /// A handle on the IN bank that `ep` names. Fails when `ep` is an OUT
    /// address, or names no endpoint, or one whose IN direction is not
    /// allocated.
    pub fn bank1(&self, ep: EndpointAddress) -> (result: Result<Bank<InBank>, UsbError>)
        ensures
            match result {
                Ok(bank) => {
                    &&& self.has_bank(ep, UsbDirection::In)
                    &&& bank.index_spec() == ep.index_spec()
                    &&& bank.config_spec() == self.registry().config(ep.index_spec(), UsbDirection::In)
                    &&& bank.loaned_spec() == 0
                    &&& supported_packet_size(bank.config_spec().max_packet_size as int)
                },
                Err(e) => e == UsbError::InvalidEndpoint && !self.has_bank(ep, UsbDirection::In),
            },
    {
        if ep.is_out() {
            return Err(UsbError::InvalidEndpoint);
        }
        let idx = ep.index();
        if idx >= ENDPOINT_COUNT {
            return Err(UsbError::InvalidEndpoint);
        }
        let config = self.endpoint_config(idx, UsbDirection::In);
        if config.ep_type == EndpointTypeBits::Disabled {
            return Err(UsbError::InvalidEndpoint);
        }
        Ok(Bank::new(idx, config))
    }

    /// Claims the endpoint that `addr` names, or the lowest free one, for
    /// direction `dir`, with the buffer at `buffer_addr`.
    fn commit(
        &mut self,
        dir: UsbDirection,
        addr: Option<EndpointAddress>,
        ep_type: EndpointType,
        allocated_size: u16,
        max_packet_size: u16,
        interval: u8,
        buffer_addr: usize,
    ) -> (result: Result<EndpointAddress, UsbError>)
        requires
            supported_packet_size(max_packet_size as int),
        ensures
            final(self).wf(),
            match result {
                Ok(ep) => Ok::<u8, UsbError>(ep.raw_spec()),
                Err(e) => Err::<u8, UsbError>(e),
            } == old(self).commit_result(dir, addr),
            result is Ok ==> {
                &&& result->Ok_0.index_spec() == old(self).target(dir, addr)
                &&& result->Ok_0.direction_spec() == dir
                &&& old(self).committed(
                    *final(self),
                    old(self).target(dir, addr),
                    dir,
                    EPConfig {
                        ep_type: EndpointTypeBits::of(ep_type),
                        allocated_size,
                        max_packet_size,
                        addr: buffer_addr,
                    },
                    old(self).allocator(),
                )
            },
            result is Err ==> *final(self) == *old(self),
    {
        proof {
            use_type_invariant(&*self);
        }
        let idx = match addr {
            None => {
                match self.endpoints.find_free_endpoint(dir) {
                    Ok(idx) => idx,
                    Err(e) => {
                        return Err(e);
                    },
                }
            },
            Some(addr) => addr.index(),
        };
        if idx >= ENDPOINT_COUNT {
            return Err(UsbError::InvalidEndpoint);
        }
        let mut endpoints = self.endpoints;
        let result = endpoints.allocate_endpoint(
            dir,
            idx,
            ep_type,
            allocated_size,
            max_packet_size,
            interval,
            buffer_addr,
        );
        proof {
            assert forall|i: int, d: UsbDirection|
                0 <= i < ENDPOINT_COUNT && (#[trigger] endpoints.config(i, d)).is_allocated()
                implies supported_packet_size(endpoints.config(i, d).max_packet_size as int) by {
                if !(i == idx && d == dir) || result is Err {
                    assert(endpoints.config(i, d) == self.registry().config(i, d));
                }
            }
        }
        self.endpoints = endpoints;
        result
    }

    /// Allocates an endpoint of direction `dir` that carries packets of up
    /// to `max_packet_size` bytes, with a buffer of its own from the packet
    /// memory. The buffer is taken before the endpoint is looked for, and
    /// stays taken when no endpoint can be had.
    pub fn alloc_ep(
        &mut self,
        dir: UsbDirection,
        addr: Option<EndpointAddress>,
        ep_type: EndpointType,
        max_packet_size: u16,
        interval: u8,
    ) -> (result: Result<EndpointAddress, UsbError>)
        ensures
            final(self).wf(),
            !supported_packet_size(max_packet_size as int) ==> {
                &&& result == Err::<EndpointAddress, UsbError>(UsbError::Unsupported)
                &&& *final(self) == *old(self)
            },
            supported_packet_size(max_packet_size as int) && !old(self).allocator().fits(
                tier_of(max_packet_size as int),
            ) ==> {
                &&& result == Err::<EndpointAddress, UsbError>(UsbError::EndpointMemoryOverflow)
                &&& *final(self) == *old(self)
            },
            supported_packet_size(max_packet_size as int) && old(self).allocator().fits(
                tier_of(max_packet_size as int),
            ) ==> {
                let tier = tier_of(max_packet_size as int);
                let grown = old(self).allocator().advanced(tier);
                &&& old(self).allocator().grown_by(grown, tier)
                &&& match result {
                    Ok(ep) => Ok::<u8, UsbError>(ep.raw_spec()),
                    Err(e) => Err::<u8, UsbError>(e),
                } == old(self).commit_result(dir, addr)
                &&& result is Err ==> old(self).kept(*final(self), grown)
                &&& result is Ok ==> {
                    &&& result->Ok_0.index_spec() == old(self).target(dir, addr)
                    &&& result->Ok_0.direction_spec() == dir
                    &&& old(self).committed(
                        *final(self),
                        old(self).target(dir, addr),
                        dir,
                        EPConfig {
                            ep_type: EndpointTypeBits::of(ep_type),
                            allocated_size: tier as u16,
                            max_packet_size,
                            addr: old(self).allocator().next_start() as usize,
                        },
                        grown,
                    )
                }
            },
    {
        proof {
            use_type_invariant(&*self);
        }
        let buffer_size = match buffer_tier(max_packet_size) {
            Some(tier) => tier,
            None => {
                return Err(UsbError::Unsupported);
            },
        };
        let mut buffers = self.buffers;
        let buffer = match buffers.allocate_buffer(buffer_size) {
            Ok(buffer) => buffer,
            Err(e) => {
                return Err(e);
            },
        };
        self.buffers = buffers;
        self.commit(dir, addr, ep_type, buffer_size, max_packet_size, interval, buffer)
    }
}

impl UsbBus {
    /// Allocates an OUT endpoint that receives into a buffer of the
    /// caller's. The buffer must hold a packet of `max_packet_size` bytes.
    pub fn alloc_dma_out_endpoint(
        &mut self,
        addr: Option<EndpointAddress>,
        ep_type: EndpointType,
        max_packet_size: u16,
        interval: u8,
        buffer: DmaBuffer,
    ) -> (result: Result<EndpointAddress, UsbError>)
        ensures
            final(self).wf(),
            !supported_packet_size(max_packet_size as int) ==> {
                &&& result == Err::<EndpointAddress, UsbError>(UsbError::Unsupported)
                &&& *final(self) == *old(self)
            },
            supported_packet_size(max_packet_size as int) && buffer.size < max_packet_size ==> {
                &&& result == Err::<EndpointAddress, UsbError>(UsbError::BufferOverflow)
                &&& *final(self) == *old(self)
            },
            supported_packet_size(max_packet_size as int) && buffer.size >= max_packet_size ==> {
                &&& match result {
                    Ok(ep) => Ok::<u8, UsbError>(ep.raw_spec()),
                    Err(e) => Err::<u8, UsbError>(e),
                } == old(self).commit_result(UsbDirection::Out, addr)
                &&& result is Err ==> *final(self) == *old(self)
                &&& result is Ok ==> {
                    &&& result->Ok_0.index_spec() == old(self).target(UsbDirection::Out, addr)
                    &&& result->Ok_0.direction_spec() == UsbDirection::Out
                    &&& old(self).committed(
                        *final(self),
                        old(self).target(UsbDirection::Out, addr),
                        UsbDirection::Out,
                        EPConfig {
                            ep_type: EndpointTypeBits::of(ep_type),
                            allocated_size: (buffer.size % 65536) as u16,
                            max_packet_size,
                            addr: buffer.address,
                        },
                        old(self).allocator(),
                    )
                }
            },
    {
        proof {
            use_type_invariant(&*self);
        }
        if buffer_tier(max_packet_size).is_none() {
            return Err(UsbError::Unsupported);
        }
        if buffer.size < max_packet_size as usize {
            return Err(UsbError::BufferOverflow);
        }
        let buf_size_bytes = (buffer.size % 65536) as u16;
        self.commit(
            UsbDirection::Out,
            addr,
            ep_type,
            buf_size_bytes,
            max_packet_size,
            interval,
            buffer.address,
        )
    }

    /// Allocates an IN endpoint that sends from buffers of the caller's.
    /// It has no buffer until one is lent for a transfer.
    pub fn alloc_dma_in_endpoint(
        &mut self,
        addr: Option<EndpointAddress>,
        ep_type: EndpointType,
        max_packet_size: u16,
        interval: u8,
    ) -> (result: Result<EndpointAddress, UsbError>)
        ensures
            final(self).wf(),
            !supported_packet_size(max_packet_size as int) ==> {
                &&& result == Err::<EndpointAddress, UsbError>(UsbError::Unsupported)
                &&& *final(self) == *old(self)
            },
            supported_packet_size(max_packet_size as int) ==> {
                &&& match result {
                    Ok(ep) => Ok::<u8, UsbError>(ep.raw_spec()),
                    Err(e) => Err::<u8, UsbError>(e),
                } == old(self).commit_result(UsbDirection::In, addr)
                &&& result is Err ==> *final(self) == *old(self)
                &&& result is Ok ==> {
                    &&& result->Ok_0.index_spec() == old(self).target(UsbDirection::In, addr)
                    &&& result->Ok_0.direction_spec() == UsbDirection::In
                    &&& old(self).committed(
                        *final(self),
                        old(self).target(UsbDirection::In, addr),
                        UsbDirection::In,
                        EPConfig {
                            ep_type: EndpointTypeBits::of(ep_type),
                            allocated_size: 0,
                            max_packet_size,
                            addr: 0,
                        },
                        old(self).allocator(),
                    )
                }
            },
    {
        proof {
            use_type_invariant(&*self);
        }
        if buffer_tier(max_packet_size).is_none() {
            return Err(UsbError::Unsupported);
        }
        self.commit(UsbDirection::In, addr, ep_type, 0, max_packet_size, interval, 0)
    }

    /// Tells the peripheral which address the host has given the device.
    pub fn set_device_address(&self, dev: &mut Device, addr: u8)
        ensures
            *final(dev) == (Device { dadd: addr % 128, adden: true, ..*old(dev) }),
    {
        dev.dadd = addr % 128;
        dev.adden = true;
    }

    /// Unmasks or masks the start-of-frame interrupt.
    pub fn sof_interrupt(&self, dev: &mut Device, enable: bool)
        ensures
            *final(dev) == (Device {
                inten: IntFlags { sof: enable, ..old(dev).inten },
                ..*old(dev)
            }),
    {
        dev.inten.sof = enable;
    }

    /// Unmasks the start-of-frame interrupt.
    pub fn enable_sof_interrupt(&self, dev: &mut Device)
        ensures
            *final(dev) == (Device {
                inten: IntFlags { sof: true, ..old(dev).inten },
                ..*old(dev)
            }),
    {
        self.sof_interrupt(dev, true)
    }

    /// Masks the start-of-frame interrupt.
    pub fn disable_sof_interrupt(&self, dev: &mut Device)
        ensures
            *final(dev) == (Device {
                inten: IntFlags { sof: false, ..old(dev).inten },
                ..*old(dev)
            }),
    {
        self.sof_interrupt(dev, false)
    }

    /// Tells whether a frame has started since the last call, and clears
    /// the flag that says so.
    pub fn check_sof_interrupt(&self, dev: &mut Device) -> (started: bool)
        ensures
            started == old(dev).intflag.sof,
            *final(dev) == (Device {
                intflag: IntFlags { sof: false, ..old(dev).intflag },
                ..*old(dev)
            }),
    {
        if dev.intflag.sof {
            dev.intflag.sof = false;
            return true;
        }
        false
    }

    /// Takes note that the bus is suspended. The peripheral cannot tell a
    /// suspended bus from one that was never connected, so nothing is done.
    pub fn suspend(&self, dev: &mut Device)
        ensures
            *final(dev) == *old(dev),
    {
    }

    /// Takes note that the bus has resumed. Nothing is done, as for
    /// `suspend`.
    pub fn resume(&self, dev: &mut Device)
        ensures
            *final(dev) == *old(dev),
    {
    }
}

impl UsbBus {
    /// The registers of endpoint `idx` after the interrupts of its
    /// allocated directions have been unmasked.
    pub open spec fn rearm_regs(self, idx: int, regs: EpRegisters) -> EpRegisters {
        let out = if self.registry().config(idx, UsbDirection::Out).is_allocated() {
            regs.interrupts_enabled(interrupt_mask(UsbDirection::Out))
        } else {
            regs
        };
        if self.registry().config(idx, UsbDirection::In).is_allocated() {
            out.interrupts_enabled(interrupt_mask(UsbDirection::In))
        } else {
            out
        }
    }

    /// The registers of endpoint `idx` after its types have been written,
    /// while its descriptors were `descs`, and then the interrupts of its
    /// allocated directions unmasked.
    pub open spec fn flush_regs(self, idx: int, regs: EpRegisters, descs: EndpointDescriptors)
        -> EpRegisters {
        self.rearm_regs(
            idx,
            regs.typed(
                self.registry().config(idx, UsbDirection::Out).ep_type,
                self.registry().config(idx, UsbDirection::In).ep_type,
                descs,
            ),
        )
    }

    /// The descriptors of endpoint `idx` after the endpoint's configuration
    /// has been written.
    pub open spec fn flush_descs(self, idx: int, descs: EndpointDescriptors)
        -> EndpointDescriptors {
        EndpointDescriptors {
            bank0: self.flush_desc(idx, UsbDirection::Out, descs.bank0),
            bank1: self.flush_desc(idx, UsbDirection::In, descs.bank1),
        }
    }

    /// The descriptor of direction `dir` of endpoint `idx` after the
    /// endpoint's configuration has been written: that of the
    /// configuration where the direction is allocated, and else as it was.
    pub open spec fn flush_desc(self, idx: int, dir: UsbDirection, desc: DeviceDescBank)
        -> DeviceDescBank {
        if self.registry().config(idx, dir).is_allocated() {
            flushed(self.registry().config(idx, dir))
        } else {
            desc
        }
    }

    /// Whether a flush in `mode` leaves endpoint `idx` its descriptors and
    /// its types, and only unmasks its interrupts.
    pub open spec fn only_rearms(mode: FlushConfigMode, idx: int) -> bool {
        mode == FlushConfigMode::ProtocolReset && idx == 0
    }

    /// Whether `after` is `before` with the configuration of the endpoints
    /// below `count` written to it in `mode`.
    pub open spec fn flushed_below(
        self,
        before: Device,
        after: Device,
        mode: FlushConfigMode,
        count: int,
    ) -> bool {
        &&& after.same_globals(before)
        &&& after.same_layout(before)
        &&& after.ram == before.ram
        &&& forall|i: int|
            0 <= i < ENDPOINT_COUNT ==> #[trigger] after.regs(i) == if i >= count {
                before.regs(i)
            } else if Self::only_rearms(mode, i) {
                self.rearm_regs(i, before.regs(i))
            } else {
                self.flush_regs(i, before.regs(i), self.flush_descs(i, before.descs(i)))
            }
        &&& forall|i: int, d: UsbDirection|
            0 <= i < ENDPOINT_COUNT ==> #[trigger] after.desc(i, d) == if i >= count
                || Self::only_rearms(mode, i) {
                before.desc(i, d)
            } else {
                self.flush_desc(i, d, before.desc(i, d))
            }
    }

    /// Unmasks the interrupts of the bank that `ep_addr` names. Nothing
    /// happens when there is no such bank.
    pub fn setup_ep_interrupts(&self, dev: &mut Device, ep_addr: EndpointAddress)
        ensures
            self.has_bank(ep_addr, ep_addr.direction_spec()) ==> final(dev).only_endpoint_changed(
                *old(dev),
                ep_addr.index_spec(),
                old(dev).regs(ep_addr.index_spec()).interrupts_enabled(
                    interrupt_mask(ep_addr.direction_spec()),
                ),
            ),
            !self.has_bank(ep_addr, ep_addr.direction_spec()) ==> *final(dev) == *old(dev),
    {
        if ep_addr.is_out() {
            if let Ok(bank) = self.bank0(ep_addr) {
                bank.setup_ep_interrupts(dev);
            }
        } else if let Ok(bank) = self.bank1(ep_addr) {
            bank.setup_ep_interrupts(dev);
        }
    }

    /// Writes the descriptors of the allocated banks of endpoint `idx`, and
    /// then the endpoint's types, in one write, which switches the endpoint
    /// on. The descriptors come first, so that the peripheral never works
    /// with an endpoint whose descriptor is not in place: what it finds
    /// when the types are written are the descriptors as they are after
    /// the call.
    pub fn flush_ep(&self, dev: &mut Device, idx: usize)
        requires
            idx < ENDPOINT_COUNT,
        ensures
            final(dev).regs_changed_at(
                *old(dev),
                idx as int,
                old(dev).regs(idx as int).typed(
                    self.registry().config(idx as int, UsbDirection::Out).ep_type,
                    self.registry().config(idx as int, UsbDirection::In).ep_type,
                    self.flush_descs(idx as int, old(dev).descs(idx as int)),
                ),
            ),
            final(dev).regs(idx as int).found == final(dev).descs(idx as int),
            final(dev).same_layout(*old(dev)),
            final(dev).ram == old(dev).ram,
            forall|d: UsbDirection| #[trigger]
                final(dev).desc(idx as int, d) == self.flush_desc(
                    idx as int,
                    d,
                    old(dev).desc(idx as int, d),
                ),
            forall|i: int, d: UsbDirection|
                0 <= i < ENDPOINT_COUNT && i != idx
                    ==> #[trigger] final(dev).desc(i, d) == old(dev).desc(i, d),
    {
        let out_config = self.endpoint_config(idx, UsbDirection::Out);
        let in_config = self.endpoint_config(idx, UsbDirection::In);
        proof {
            lemma_parts_in_range(idx as int);
        }
        if let Ok(bank) = self.bank0(EndpointAddress::from_parts(idx, UsbDirection::Out)) {
            bank.flush_config(dev);
        }
        let ghost mid = *dev;
        if let Ok(bank) = self.bank1(EndpointAddress::from_parts(idx, UsbDirection::In)) {
            bank.flush_config(dev);
        }
        let ghost late = *dev;
        proof {
            assert(mid.desc(idx as int, UsbDirection::Out) == self.flush_desc(
                idx as int,
                UsbDirection::Out,
                old(dev).desc(idx as int, UsbDirection::Out),
            ));
            assert(mid.desc(idx as int, UsbDirection::In) == old(dev).desc(
                idx as int,
                UsbDirection::In,
            ));
            assert(late.desc(idx as int, UsbDirection::Out) == mid.desc(
                idx as int,
                UsbDirection::Out,
            ));
            assert(late.desc(idx as int, UsbDirection::In) == self.flush_desc(
                idx as int,
                UsbDirection::In,
                mid.desc(idx as int, UsbDirection::In),
            ));
            assert(late.descs(idx as int) == self.flush_descs(
                idx as int,
                old(dev).descs(idx as int),
            ));
        }
        dev.epcfg(idx, out_config.ep_type, in_config.ep_type);
        proof {
            assert(dev.descs(idx as int) == late.descs(idx as int));
            assert forall|d: UsbDirection| #[trigger]
                dev.desc(idx as int, d) == self.flush_desc(
                    idx as int,
                    d,
                    old(dev).desc(idx as int, d),
                ) by {
                assert(dev.desc(idx as int, d) == late.desc(idx as int, d));
                assert(mid.desc(idx as int, d) == if d == UsbDirection::Out {
                    self.flush_desc(idx as int, d, old(dev).desc(idx as int, d))
                } else {
                    old(dev).desc(idx as int, d)
                });
            }
            assert forall|i: int, d: UsbDirection|
                0 <= i < ENDPOINT_COUNT && i != idx
                    implies #[trigger] dev.desc(i, d) == old(dev).desc(i, d) by {
                assert(dev.desc(i, d) == late.desc(i, d));
                assert(late.desc(i, d) == mid.desc(i, d));
                assert(mid.desc(i, d) == old(dev).desc(i, d));
            }
        }
    }
}

impl UsbBus {
    /// Unmasks the interrupts of both directions of endpoint `idx`, as far
    /// as they are allocated.
    fn rearm_ep(&self, dev: &mut Device, idx: usize)
        requires
            idx < ENDPOINT_COUNT,
        ensures
            final(dev).only_endpoint_changed(
                *old(dev),
                idx as int,
                self.rearm_regs(idx as int, old(dev).regs(idx as int)),
            ),
    {
        proof {
            lemma_parts_in_range(idx as int);
        }
        self.setup_ep_interrupts(dev, EndpointAddress::from_parts(idx, UsbDirection::Out));
        self.setup_ep_interrupts(dev, EndpointAddress::from_parts(idx, UsbDirection::In));
    }

    /// Writes the configuration of every endpoint to the peripheral. For
    /// each endpoint the descriptors are written first, then the types,
    /// and the interrupts are unmasked last: the peripheral ignores the
    /// unmasking for an endpoint that has no type yet. After a reset of
    /// the bus, endpoint 0 only has its interrupts unmasked.
    pub fn flush_eps(&self, dev: &mut Device, mode: FlushConfigMode)
        ensures
            self.flushed_below(*old(dev), *final(dev), mode, ENDPOINT_COUNT as int),
    {
        let mut idx: usize = 0;
        while idx < ENDPOINT_COUNT
            invariant
                idx <= ENDPOINT_COUNT,
                self.flushed_below(*old(dev), *dev, mode, idx as int),
            decreases ENDPOINT_COUNT - idx,
        {
            let ghost before = *dev;
            let only_rearm = match mode {
                FlushConfigMode::ProtocolReset => idx == 0,
                FlushConfigMode::Full => false,
            };
            if !only_rearm {
                self.flush_ep(dev, idx);
            }
            let ghost mid = *dev;
            self.rearm_ep(dev, idx);
            proof {
                assert forall|i: int| 0 <= i < ENDPOINT_COUNT implies #[trigger] dev.regs(i) == if i
                    >= idx + 1 {
                    old(dev).regs(i)
                } else if Self::only_rearms(mode, i) {
                    self.rearm_regs(i, old(dev).regs(i))
                } else {
                    self.flush_regs(i, old(dev).regs(i), self.flush_descs(i, old(dev).descs(i)))
                } by {
                    assert(before.regs(i) == if i >= idx {
                        old(dev).regs(i)
                    } else if Self::only_rearms(mode, i) {
                        self.rearm_regs(i, old(dev).regs(i))
                    } else {
                        self.flush_regs(
                            i,
                            old(dev).regs(i),
                            self.flush_descs(i, old(dev).descs(i)),
                        )
                    });
                    if i == idx {
                        assert(before.desc(i, UsbDirection::Out) == old(dev).desc(
                            i,
                            UsbDirection::Out,
                        ));
                        assert(before.desc(i, UsbDirection::In) == old(dev).desc(
                            i,
                            UsbDirection::In,
                        ));
                        assert(before.descs(i) == old(dev).descs(i));
                    }
                    if i != idx {
                        assert(mid.regs(i) == before.regs(i));
                        assert(dev.regs(i) == mid.regs(i));
                    }
                }
                assert forall|i: int, d: UsbDirection| 0 <= i < ENDPOINT_COUNT implies #[trigger] dev.desc(
                    i,
                    d,
                ) == if i >= idx + 1 || Self::only_rearms(mode, i) {
                    old(dev).desc(i, d)
                } else {
                    self.flush_desc(i, d, old(dev).desc(i, d))
                } by {
                    assert(before.desc(i, d) == if i >= idx || Self::only_rearms(mode, i) {
                        old(dev).desc(i, d)
                    } else {
                        self.flush_desc(i, d, old(dev).desc(i, d))
                    });
                    assert(dev.desc(i, d) == mid.desc(i, d));
                    if only_rearm {
                        assert(mid.desc(i, d) == before.desc(i, d));
                    } else if i == idx {
                        assert(mid.desc(idx as int, d) == self.flush_desc(
                            idx as int,
                            d,
                            before.desc(idx as int, d),
                        ));
                    } else {
                        assert(mid.desc(i, d) == before.desc(i, d));
                    }
                }
            }
            idx = idx + 1;
        }
    }

    /// Restores the endpoints after the host has reset the bus.
    pub fn protocol_reset(&self, dev: &mut Device)
        ensures
            self.flushed_below(
                *old(dev),
                *final(dev),
                FlushConfigMode::ProtocolReset,
                ENDPOINT_COUNT as int,
            ),
    {
        self.flush_eps(dev, FlushConfigMode::ProtocolReset);
    }

    /// Restores the endpoints after the host has reset the bus.
    pub fn reset(&self, dev: &mut Device)
        ensures
            self.flushed_below(
                *old(dev),
                *final(dev),
                FlushConfigMode::ProtocolReset,
                ENDPOINT_COUNT as int,
            ),
    {
        self.protocol_reset(dev);
    }

    /// Whether `after` is the peripheral `before` once it has been brought
    /// up: reset, told where the descriptor table lies, calibrated, set to
    /// be a full-speed device that runs in standby, switched on with no
    /// flag pending and only the end-of-reset interrupt unmasked, its
    /// endpoints configured, and attached to the bus. The peripheral was
    /// switched on with the table's address, the calibration and the mode
    /// in place, and before any flag was touched or any endpoint
    /// configured. Each endpoint was switched on with its descriptors in
    /// place, and the device went on the bus last, with all of this done.
    pub open spec fn enabled(self, before: Device, after: Device) -> bool {
        &&& after.enabled
        &&& after.mode == Mode::Device
        &&& after.run_in_standby
        &&& after.speed == Speed::Full
        &&& !after.detached
        &&& after.descadd == before.descriptor_address
        &&& after.padcal == before.calibration
        &&& after.dqos == 3
        &&& after.cqos == 3
        &&& after.dadd == 0
        &&& !after.adden
        &&& after.intflag == IntFlags::none()
        &&& after.inten == (IntFlags { eorst: true, ..IntFlags::none() })
        &&& after.same_layout(before)
        &&& after.ram == before.ram
        &&& after.switched_on_with == (Configuration {
            enabled: false,
            mode: Mode::Device,
            run_in_standby: true,
            speed: Speed::Full,
            descadd: before.descriptor_address,
            padcal: before.calibration,
            dqos: 3,
            cqos: 3,
            intflag: IntFlags::none(),
            inten: IntFlags::none(),
            endpoints: after.switched_on_with.endpoints,
            descriptors: before.descriptors,
        })
        &&& forall|i: int|
            0 <= i < ENDPOINT_COUNT ==> #[trigger] after.switched_on_with.endpoints[i]
                == EpRegisters::reset()
        &&& after.attached_with == after.configuration()
        &&& forall|i: int|
            0 <= i < ENDPOINT_COUNT ==> (#[trigger] after.regs(i)).found == after.descs(i)
        &&& forall|i: int|
            0 <= i < ENDPOINT_COUNT ==> #[trigger] after.regs(i) == self.flush_regs(
                i,
                EpRegisters::reset(),
                self.flush_descs(i, before.descs(i)),
            )
        &&& forall|i: int, d: UsbDirection|
            0 <= i < ENDPOINT_COUNT ==> #[trigger] after.desc(i, d) == self.flush_desc(
                i,
                d,
                before.desc(i, d),
            )
    }

    /// Brings the peripheral up. The endpoints are configured before the
    /// device attaches to the bus, because a host may start to enumerate
    /// at once.
    pub fn enable(&self, dev: &mut Device)
        ensures
            self.enabled(*old(dev), *final(dev)),
    {
        dev.software_reset();
        let ghost fresh = *dev;
        dev.descadd = dev.descriptor_address;
        dev.padcal = dev.calibration;
        dev.dqos = 3;
        dev.cqos = 3;
        dev.mode = Mode::Device;
        dev.run_in_standby = true;
        dev.speed = Speed::Full;
        dev.switch_on();
        dev.intflag = IntFlags::empty();
        dev.inten.eorst = true;
        let ghost mid = *dev;
        proof {
            assert(mid.switched_on_with.endpoints == fresh.endpoints);
            assert forall|i: int| 0 <= i < ENDPOINT_COUNT implies #[trigger] mid.switched_on_with.endpoints[i]
                == EpRegisters::reset() by {
                assert(fresh.regs(i) == EpRegisters::reset());
            }
            assert(mid.endpoints == fresh.endpoints);
            assert(mid.descriptors == old(dev).descriptors);
            assert forall|i: int| 0 <= i < ENDPOINT_COUNT implies #[trigger] mid.regs(i)
                == EpRegisters::reset() by {
                assert(fresh.regs(i) == EpRegisters::reset());
            }
        }
        self.flush_eps(dev, FlushConfigMode::Full);
        let ghost late = *dev;
        dev.attach();
        proof {
            assert forall|i: int| 0 <= i < ENDPOINT_COUNT implies #[trigger] dev.regs(i)
                == self.flush_regs(
                i,
                EpRegisters::reset(),
                self.flush_descs(i, old(dev).descs(i)),
            ) by {
                assert(mid.descs(i) == old(dev).descs(i));
                assert(late.regs(i) == self.flush_regs(
                    i,
                    mid.regs(i),
                    self.flush_descs(i, mid.descs(i)),
                ));
            }
            assert forall|i: int| 0 <= i < ENDPOINT_COUNT implies (#[trigger] dev.regs(i)).found
                == dev.descs(i) by {
                assert(mid.descs(i) == old(dev).descs(i));
                assert(late.regs(i) == self.flush_regs(
                    i,
                    mid.regs(i),
                    self.flush_descs(i, mid.descs(i)),
                ));
                assert(late.desc(i, UsbDirection::Out) == self.flush_desc(
                    i,
                    UsbDirection::Out,
                    mid.desc(i, UsbDirection::Out),
                ));
                assert(late.desc(i, UsbDirection::In) == self.flush_desc(
                    i,
                    UsbDirection::In,
                    mid.desc(i, UsbDirection::In),
                ));
            }
            assert forall|i: int, d: UsbDirection| 0 <= i < ENDPOINT_COUNT implies #[trigger] dev.desc(
                i,
                d,
            ) == self.flush_desc(i, d, old(dev).desc(i, d)) by {
                assert(late.desc(i, d) == self.flush_desc(i, d, mid.desc(i, d)));
            }
        }
    }
}

/// Whether a poll reports that endpoint's IN packet as sent: the endpoint
/// interrupts, and its IN transfer is complete.
pub open spec fn write_complete(regs: EpRegisters) -> bool {
    regs.interrupting() && regs.intflag.trcpt1
}

/// Whether a poll looks at the OUT bank of the endpoint: the endpoint
/// interrupts, and its IN transfer is not complete. An endpoint whose IN
/// transfer is complete is reported for that alone, and its OUT bank waits
/// for the next poll.
pub open spec fn out_inspected(regs: EpRegisters) -> bool {
    regs.interrupting() && !regs.intflag.trcpt1
}

/// Whether a poll reports a SETUP packet on the endpoint.
pub open spec fn setup_pending(regs: EpRegisters) -> bool {
    out_inspected(regs) && regs.intflag.rxstp
}

/// Whether a poll reports a received packet on the endpoint.
pub open spec fn readable(regs: EpRegisters) -> bool {
    out_inspected(regs) && regs.status.bk0rdy
}

/// The registers of an endpoint after a poll: a completed IN transfer is
/// acknowledged, and nothing else is touched. The flag of a SETUP packet
/// stays, so that the packet is reported until it is read.
pub open spec fn polled(regs: EpRegisters) -> EpRegisters {
    if write_complete(regs) {
        regs.flags_cleared(transfer_mask(UsbDirection::In))
    } else {
        regs
    }
}

/// Whether no endpoint of the peripheral interrupts.
pub open spec fn quiet(dev: Device) -> bool {
    forall|i: int| 0 <= i < ENDPOINT_COUNT ==> !#[trigger] dev.summary_bit(i)
}

/// Whether the three masks report the endpoints of `dev` as a poll does.
pub open spec fn reports(dev: Device, ep_out: u16, ep_in_complete: u16, ep_setup: u16) -> bool {
    reports_below(dev, ep_out, ep_in_complete, ep_setup, ENDPOINT_COUNT as int)
}

/// Whether the three masks report the endpoints of `dev` below `count` as
/// a poll does, and no other endpoint.
pub open spec fn reports_below(
    dev: Device,
    ep_out: u16,
    ep_in_complete: u16,
    ep_setup: u16,
    count: int,
) -> bool {
    &&& forall|k: int|
        0 <= k < 16 ==> #[trigger] bit(ep_out, k) == (k < count && readable(dev.regs(k)))
    &&& forall|k: int|
        0 <= k < 16 ==> #[trigger] bit(ep_in_complete, k) == (k < count && write_complete(
            dev.regs(k),
        ))
    &&& forall|k: int|
        0 <= k < 16 ==> #[trigger] bit(ep_setup, k) == (k < count && setup_pending(dev.regs(k)))
}

/// The registers of an endpoint after a read into a buffer of `len` bytes
/// has been served while the endpoint's descriptors were `descs`: the
/// SETUP flag and the flags of the OUT transfer are cleared, and the bank
/// is handed to the peripheral for the next packet, with its descriptor as
/// it is then, unless the buffer was empty, which leaves the bank ready.
pub open spec fn after_read(regs: EpRegisters, len: int, descs: EndpointDescriptors)
    -> EpRegisters {
    let cleared = regs.flags_cleared(setup_mask()).flags_cleared(transfer_mask(UsbDirection::Out));
    if len != 0 {
        with_ready(cleared, UsbDirection::Out, false, descs)
    } else {
        cleared
    }
}

/// The registers of an endpoint after its IN bank has been handed to the
/// peripheral while the endpoint's descriptors were `descs`: the flags of
/// the IN transfer are cleared and the bank is ready, with its descriptor
/// as it is then.
pub open spec fn after_write(regs: EpRegisters, descs: EndpointDescriptors) -> EpRegisters {
    with_ready(regs.flags_cleared(transfer_mask(UsbDirection::In)), UsbDirection::In, true, descs)
}

/// Whether the OUT bank has something to read: a packet, or a SETUP
/// packet.
pub open spec fn has_data(regs: EpRegisters) -> bool {
    ready(regs, UsbDirection::Out) || regs.intflag.rxstp
}

/// What a poll finds on an interrupting endpoint.
pub struct Inspection {
    /// The IN packet has been sent.
    pub write_complete: bool,
    /// The OUT bank holds a SETUP packet.
    pub setup: bool,
    /// The OUT bank holds a received packet.
    pub readable: bool,
}

impl UsbBus {
    /// Looks at an endpoint that interrupts. A completed IN transfer is
    /// acknowledged and reported alone; else the OUT bank is looked at.
    fn inspect(&self, dev: &mut Device, idx: usize) -> (found: Inspection)
        requires
            idx < ENDPOINT_COUNT,
            old(dev).summary_bit(idx as int),
        ensures
            final(dev).only_endpoint_changed(*old(dev), idx as int, polled(old(dev).regs(idx as int))),
            found.write_complete == write_complete(old(dev).regs(idx as int)),
            found.setup == setup_pending(old(dev).regs(idx as int)),
            found.readable == readable(old(dev).regs(idx as int)),
    {
        let bank1 = Bank::<InBank>::new(idx, self.endpoint_config(idx, UsbDirection::In));
        if bank1.is_transfer_complete(dev) {
            bank1.clear_transfer_complete(dev);
            return Inspection { write_complete: true, setup: false, readable: false };
        }
        let bank0 = Bank::<OutBank>::new(idx, self.endpoint_config(idx, UsbDirection::Out));
        let setup = bank0.received_setup_interrupt(dev);
        let readable = bank0.is_ready(dev);
        Inspection { write_complete: false, setup, readable }
    }

    /// Looks at every endpoint whose bit is set in `intbits`, the interrupt
    /// summary, and gathers what is found into three masks: readable,
    /// write complete, SETUP pending.
    fn scan(&self, dev: &mut Device, intbits: u16) -> (masks: (u16, u16, u16))
        requires
            forall|k: int|
                0 <= k < ENDPOINT_COUNT ==> #[trigger] bit(intbits, k) == old(dev).summary_bit(k),
        ensures
            reports(*old(dev), masks.0, masks.1, masks.2),
            final(dev).same_globals(*old(dev)),
            final(dev).same_memory(*old(dev)),
            forall|i: int|
                0 <= i < ENDPOINT_COUNT ==> #[trigger] final(dev).regs(i) == polled(
                    old(dev).regs(i),
                ),
    {
        let mut ep_out: u16 = 0;
        let mut ep_in_complete: u16 = 0;
        let mut ep_setup: u16 = 0;
        proof {
            crate::usb::mask::lemma_zero_mask(0);
        }
        let mut ep: u16 = 0;
        while ep < 8
            invariant
                ep <= 8,
                forall|k: int|
                    0 <= k < ENDPOINT_COUNT ==> #[trigger] bit(intbits, k) == old(dev).summary_bit(
                        k,
                    ),
                dev.same_globals(*old(dev)),
                dev.same_memory(*old(dev)),
                forall|i: int|
                    0 <= i < ENDPOINT_COUNT ==> #[trigger] dev.regs(i) == if i < ep {
                        polled(old(dev).regs(i))
                    } else {
                        old(dev).regs(i)
                    },
                reports_below(*old(dev), ep_out, ep_in_complete, ep_setup, ep as int),
            decreases 8 - ep,
        {
            let ghost before = *dev;
            let ghost out_before = ep_out;
            let ghost in_before = ep_in_complete;
            let ghost setup_before = ep_setup;
            assert(before.regs(ep as int) == old(dev).regs(ep as int));
            assert(bit(intbits, ep as int) == old(dev).summary_bit(ep as int));
            if test_bit(intbits, ep) {
                let found = self.inspect(dev, ep as usize);
                if found.write_complete {
                    ep_in_complete = set_bit(ep_in_complete, ep);
                }
                if found.setup {
                    ep_setup = set_bit(ep_setup, ep);
                }
                if found.readable {
                    ep_out = set_bit(ep_out, ep);
                }
            }
            proof {
                assert forall|i: int| 0 <= i < ENDPOINT_COUNT implies #[trigger] dev.regs(i) == if i
                    < ep + 1 {
                    polled(old(dev).regs(i))
                } else {
                    old(dev).regs(i)
                } by {
                    assert(before.regs(i) == if i < ep {
                        polled(old(dev).regs(i))
                    } else {
                        old(dev).regs(i)
                    });
                }
                assert forall|k: int| 0 <= k < 16 implies #[trigger] bit(ep_out, k) == (k < ep + 1
                    && readable(old(dev).regs(k))) by {
                    assert(bit(out_before, k) == (k < ep && readable(old(dev).regs(k))));
                }
                assert forall|k: int| 0 <= k < 16 implies #[trigger] bit(ep_in_complete, k) == (k
                    < ep + 1 && write_complete(old(dev).regs(k))) by {
                    assert(bit(in_before, k) == (k < ep && write_complete(old(dev).regs(k))));
                }
                assert forall|k: int| 0 <= k < 16 implies #[trigger] bit(ep_setup, k) == (k < ep
                    + 1 && setup_pending(old(dev).regs(k))) by {
                    assert(bit(setup_before, k) == (k < ep && setup_pending(old(dev).regs(k))));
                }
            }
            ep = ep + 1;
        }
        (ep_out, ep_in_complete, ep_setup)
    }

    /// Looks once at what the peripheral has to report.
    ///
    /// A reset of the bus is reported alone, and acknowledged. Else, if no
    /// endpoint interrupts, nothing is reported. Else every interrupting
    /// endpoint is reported: with its IN packet sent, which is
    /// acknowledged; or, where no IN packet was sent, with what its OUT
    /// bank holds.
    pub fn poll(&self, dev: &mut Device) -> (result: PollResult)
        ensures
            old(dev).intflag.eorst ==> {
                &&& result == PollResult::Reset
                &&& *final(dev) == (Device {
                    intflag: IntFlags { eorst: false, ..old(dev).intflag },
                    ..*old(dev)
                })
            },
            !old(dev).intflag.eorst && quiet(*old(dev)) ==> {
                &&& result == PollResult::Idle
                &&& *final(dev) == *old(dev)
            },
            !old(dev).intflag.eorst && !quiet(*old(dev)) ==> {
                &&& result matches PollResult::Data { ep_out, ep_in_complete, ep_setup }
                    && reports(*old(dev), ep_out, ep_in_complete, ep_setup)
                &&& final(dev).same_globals(*old(dev))
                &&& final(dev).same_memory(*old(dev))
                &&& forall|i: int|
                    0 <= i < ENDPOINT_COUNT ==> #[trigger] final(dev).regs(i) == polled(
                        old(dev).regs(i),
                    )
            },
    {
        if let Some(flags) = acknowledge_reset(dev.intflag) {
            dev.intflag = flags;
            return PollResult::Reset;
        }
        let intbits = dev.epintsmry();
        proof {
            crate::usb::mask::lemma_zero_mask(intbits);
            if intbits == 0 {
                assert forall|i: int| 0 <= i < ENDPOINT_COUNT implies !#[trigger] dev.summary_bit(
                    i,
                ) by {
                    assert(!bit(intbits, i));
                }
            } else {
                let k = choose|k: int| 0 <= k < 16 && #[trigger] bit(intbits, k);
                assert(k < ENDPOINT_COUNT);
                assert(dev.summary_bit(k));
            }
        }
        if intbits == 0 {
            return PollResult::Idle;
        }
        let (ep_out, ep_in_complete, ep_setup) = self.scan(dev, intbits);
        PollResult::Data { ep_out, ep_in_complete, ep_setup }
    }
}

/// Tells whether the host has reset the bus, and if so, what the flag
/// register is once the reset has been acknowledged. All that this is given
/// is the flag register of the peripheral as a whole: no register of an
/// endpoint plays a part in it.
pub fn acknowledge_reset(flags: IntFlags) -> (acknowledged: Option<IntFlags>)
    ensures
        acknowledged == if flags.eorst {
            Some(IntFlags { eorst: false, ..flags })
        } else {
            None
        },
{
    if flags.eorst {
        let mut cleared = flags;
        cleared.eorst = false;
        Some(cleared)
    } else {
        None
    }
}

/// Hands an IN bank to the peripheral: acknowledges the last transfer and
/// marks the bank ready.
fn hand_over(dev: &mut Device, bank: &Bank<InBank>)
    ensures
        final(dev).only_endpoint_changed(
            *old(dev),
            bank.index_spec(),
            after_write(old(dev).regs(bank.index_spec()), old(dev).descs(bank.index_spec())),
        ),
{
    let ghost idx = bank.index_spec();
    bank.clear_transfer_complete(dev);
    let ghost cleared = *dev;
    bank.set_ready(dev, true);
    proof {
        assert forall|i: int| 0 <= i < ENDPOINT_COUNT && i != idx implies #[trigger] dev.regs(i)
            == old(dev).regs(i) by {
            assert(cleared.regs(i) == old(dev).regs(i));
        }
    }
}

/// Acknowledges what an OUT bank has received: the SETUP packet, if
/// `rxstp` says that there was one, and the transfer. Frees the bank for
/// the next packet if `free` says so.
fn release(dev: &mut Device, bank: &Bank<OutBank>, rxstp: bool, free: bool)
    requires
        rxstp == old(dev).regs(bank.index_spec()).intflag.rxstp,
    ensures
        final(dev).only_endpoint_changed(
            *old(dev),
            bank.index_spec(),
            after_read(
                old(dev).regs(bank.index_spec()),
                if free {
                    1
                } else {
                    0
                },
                old(dev).descs(bank.index_spec()),
            ),
        ),
{
    let ghost idx = bank.index_spec();
    if rxstp {
        bank.clear_received_setup_interrupt(dev);
    }
    let ghost first = *dev;
    assert(first.regs(idx) == old(dev).regs(idx).flags_cleared(setup_mask()));
    bank.clear_transfer_complete(dev);
    let ghost second = *dev;
    if free {
        bank.set_ready(dev, false);
    }
    proof {
        assert forall|i: int| 0 <= i < ENDPOINT_COUNT && i != idx implies #[trigger] dev.regs(i)
            == old(dev).regs(i) by {
            assert(first.regs(i) == old(dev).regs(i));
            assert(second.regs(i) == first.regs(i));
        }
    }
}

impl UsbBus {
    /// How many bytes of a packet of `len` bytes the IN bank that `ep`
    /// names takes: all that fit in its buffer.
    pub open spec fn accepted(self, ep: EndpointAddress, len: int) -> int {
        let size = self.registry().config(ep.index_spec(), UsbDirection::In).allocated_size as int;
        if len <= size {
            len
        } else {
            size
        }
    }

    /// What a write of `len` bytes to `ep` answers, with the place that
    /// the bytes go to in place of their number.
    pub open spec fn write_plan(self, dev: Device, ep: EndpointAddress, len: int) -> Result<
        Packet,
        UsbError,
    > {
        if !self.has_bank(ep, UsbDirection::In) {
            Err(UsbError::InvalidEndpoint)
        } else if ready(dev.regs(ep.index_spec()), UsbDirection::In) {
            Err(UsbError::WouldBlock)
        } else {
            Ok(
                Packet {
                    address: dev.desc(ep.index_spec(), UsbDirection::In).address,
                    count: self.accepted(ep, len) as usize,
                },
            )
        }
    }

    /// What a write of `len` bytes to `ep` answers.
    pub open spec fn write_outcome(self, dev: Device, ep: EndpointAddress, len: int) -> Result<
        usize,
        UsbError,
    > {
        match self.write_plan(dev, ep, len) {
            Ok(packet) => Ok(packet.count),
            Err(e) => Err(e),
        }
    }

    /// Tells what a write of `len` bytes to `ep` would answer, and where
    /// its bytes would go. Nothing is changed. Where the place lies
    /// outside the packet memory, in a buffer that was lent, `write` does
    /// not copy: the caller copies the bytes there, and then calls `write`.
    pub fn pending_write(&self, dev: &Device, ep: EndpointAddress, len: usize) -> (result: Result<
        Packet,
        UsbError,
    >)
        ensures
            result == self.write_plan(*dev, ep, len as int),
    {
        let bank = match self.bank1(ep) {
            Ok(bank) => bank,
            Err(e) => {
                return Err(e);
            },
        };
        if bank.is_ready(dev) {
            return Err(UsbError::WouldBlock);
        }
        Ok(bank.pending(dev, len))
    }

    /// Sends a packet on the IN endpoint `ep`: records it in the bank, cut
    /// to the size of the bank's buffer, and then hands the bank to the
    /// peripheral, which finds the descriptor with the packet's length in
    /// it. The bytes are copied into the bank's buffer where that lies in
    /// the packet memory. Answers `WouldBlock`, and touches nothing, while
    /// the bank still holds a packet that the host has not taken.
    pub fn write(&self, dev: &mut Device, ep: EndpointAddress, buf: &[u8]) -> (result: Result<
        usize,
        UsbError,
    >)
        ensures
            result == self.write_outcome(*old(dev), ep, buf@.len() as int),
            result is Err ==> *final(dev) == *old(dev),
            result is Ok ==> {
                let idx = ep.index_spec();
                &&& packet_stored(
                    *old(dev),
                    *final(dev),
                    idx,
                    buf@.take(self.accepted(ep, buf@.len() as int)),
                )
                &&& final(dev).regs_changed_at(
                    *old(dev),
                    idx,
                    after_write(old(dev).regs(idx), final(dev).descs(idx)),
                )
                &&& final(dev).regs(idx).armed.bank1 == final(dev).desc(idx, UsbDirection::In)
            },
    {
        let bank = match self.bank1(ep) {
            Ok(bank) => bank,
            Err(e) => {
                return Err(e);
            },
        };
        if bank.is_ready(dev) {
            return Err(UsbError::WouldBlock);
        }
        let size = match bank.write(dev, buf) {
            Ok(size) => size,
            Err(e) => {
                return Err(e);
            },
        };
        let ghost stored = *dev;
        hand_over(dev, &bank);
        proof {
            let idx = ep.index_spec();
            assert(stored.regs(idx) == old(dev).regs(idx));
            assert forall|i: int, d: UsbDirection|
                0 <= i < ENDPOINT_COUNT && !(i == idx && d == UsbDirection::In)
                    implies #[trigger] dev.desc(i, d) == old(dev).desc(i, d) by {
                assert(stored.desc(i, d) == old(dev).desc(i, d));
            }
            assert(dev.desc(idx, UsbDirection::In) == stored.desc(idx, UsbDirection::In));
            assert(dev.descs(idx) == stored.descs(idx));
        }
        Ok(size)
    }

    /// What a transfer of `size_bytes` bytes from the buffer `buf` on `ep`
    /// answers.
    pub open spec fn write_dma_outcome(
        self,
        dev: Device,
        ep: EndpointAddress,
        buf: DmaBuffer,
        size_bytes: int,
    ) -> Result<(), UsbError> {
        if !self.has_bank(ep, UsbDirection::In) {
            Err(UsbError::InvalidEndpoint)
        } else if ready(dev.regs(ep.index_spec()), UsbDirection::In) {
            Err(UsbError::WouldBlock)
        } else if !dma_aligned(buf.address as int) {
            Err(UsbError::Unsupported)
        } else if buf.size < size_bytes {
            Err(UsbError::BufferOverflow)
        } else {
            Ok(())
        }
    }

    /// Sends `size_bytes` bytes from a buffer of the caller's on the IN
    /// endpoint `ep_addr`, without copying them. The buffer must stay as it
    /// is until the transfer is reported complete.
    pub fn start_write_dma(
        &self,
        dev: &mut Device,
        ep_addr: EndpointAddress,
        buf: DmaBuffer,
        size_bytes: usize,
    ) -> (result: Result<(), UsbError>)
        ensures
            result == self.write_dma_outcome(*old(dev), ep_addr, buf, size_bytes as int),
            result is Err ==> *final(dev) == *old(dev),
            result is Ok ==> {
                let idx = ep_addr.index_spec();
                &&& final(dev).same_layout(*old(dev))
                &&& final(dev).ram == old(dev).ram
                &&& final(dev).descs_changed_at(
                    *old(dev),
                    idx,
                    UsbDirection::In,
                    rearmed(
                        old(dev).desc(idx, UsbDirection::In),
                        buf.address,
                        (size_bytes % 65536) as u16,
                    ),
                )
                &&& final(dev).regs_changed_at(
                    *old(dev),
                    idx,
                    after_write(old(dev).regs(idx), final(dev).descs(idx)),
                )
                &&& final(dev).regs(idx).armed.bank1 == final(dev).desc(idx, UsbDirection::In)
            },
    {
        let bank = match self.bank1(ep_addr) {
            Ok(bank) => bank,
            Err(e) => {
                return Err(e);
            },
        };
        if bank.is_ready(dev) {
            return Err(UsbError::WouldBlock);
        }
        match bank.write_dma(dev, buf, size_bytes) {
            Ok(()) => {},
            Err(e) => {
                return Err(e);
            },
        }
        let ghost armed = *dev;
        hand_over(dev, &bank);
        proof {
            let idx = ep_addr.index_spec();
            assert(armed.regs(idx) == old(dev).regs(idx));
            assert forall|i: int, d: UsbDirection|
                0 <= i < ENDPOINT_COUNT && !(i == idx && d == UsbDirection::In)
                    implies #[trigger] dev.desc(i, d) == old(dev).desc(i, d) by {
                assert(armed.desc(i, d) == old(dev).desc(i, d));
            }
            assert(dev.desc(idx, UsbDirection::In) == armed.desc(idx, UsbDirection::In));
            assert(dev.descs(idx) == armed.descs(idx));
        }
        Ok(())
    }

    /// Whether a packet can be sent on `ep_addr`: it names an allocated IN
    /// endpoint whose bank is empty.
    pub fn can_write(&self, dev: &Device, ep_addr: EndpointAddress) -> (can: bool)
        ensures
            can == (self.has_bank(ep_addr, UsbDirection::In) && !ready(
                dev.regs(ep_addr.index_spec()),
                UsbDirection::In,
            )),
    {
        if let Ok(bank) = self.bank1(ep_addr) {
            !bank.is_ready(dev)
        } else {
            false
        }
    }

    /// What a read from `ep` into a buffer of `len` bytes answers, with the
    /// place that the received bytes lie at in place of their number.
    pub open spec fn read_plan(self, dev: Device, ep: EndpointAddress, len: int) -> Result<
        Packet,
        UsbError,
    > {
        if !self.has_bank(ep, UsbDirection::Out) {
            Err(UsbError::InvalidEndpoint)
        } else if !has_data(dev.regs(ep.index_spec())) {
            Err(UsbError::WouldBlock)
        } else if received(dev, ep.index_spec()) > len {
            Err(UsbError::BufferOverflow)
        } else {
            Ok(received_packet(dev, ep.index_spec()))
        }
    }

    /// What a read from `ep` into a buffer of `len` bytes answers.
    pub open spec fn read_result(self, dev: Device, ep: EndpointAddress, len: int) -> Result<
        usize,
        UsbError,
    > {
        match self.read_plan(dev, ep, len) {
            Ok(packet) => Ok(packet.count),
            Err(e) => Err(e),
        }
    }

    /// Tells what a read from `ep` into a buffer of `len` bytes would
    /// answer, and where the received bytes lie. Nothing is changed. Where
    /// they lie outside the packet memory, in a buffer that was lent,
    /// `read` does not copy: the caller copies the bytes from there, and
    /// then calls `read`, which leaves them in place.
    pub fn pending_read(&self, dev: &Device, ep: EndpointAddress, len: usize) -> (result: Result<
        Packet,
        UsbError,
    >)
        ensures
            result == self.read_plan(*dev, ep, len as int),
    {
        let bank = match self.bank0(ep) {
            Ok(bank) => bank,
            Err(e) => {
                return Err(e);
            },
        };
        let rxstp = bank.received_setup_interrupt(dev);
        if bank.is_ready(dev) || rxstp {
            let packet = bank.pending(dev);
            if packet.count > len {
                return Err(UsbError::BufferOverflow);
            }
            Ok(packet)
        } else {
            Err(UsbError::WouldBlock)
        }
    }

    /// Whether a read from `ep` is served: the endpoint is there and has
    /// something to read. A read that is served acknowledges what was
    /// received, whether or not the data could be copied.
    pub open spec fn read_served(self, dev: Device, ep: EndpointAddress) -> bool {
        self.has_bank(ep, UsbDirection::Out) && has_data(dev.regs(ep.index_spec()))
    }

    /// Reads the packet that the OUT endpoint `ep` has received, SETUP
    /// packets included: takes it, empties the descriptor, and then frees
    /// the bank, which the peripheral finds with the emptied descriptor.
    /// The bytes are copied to the front of `buf` where they lie in the
    /// packet memory; where they lie in a buffer that was lent, `buf` is
    /// left as it is, and `pending_read` tells where they are. With an
    /// empty `buf` the bank is acknowledged but stays ready: the caller is
    /// not willing to take more data yet, and loses none.
    pub fn read(&self, dev: &mut Device, ep: EndpointAddress, buf: &mut [u8]) -> (result: Result<
        usize,
        UsbError,
    >)
        ensures
            result == self.read_result(*old(dev), ep, old(buf)@.len() as int),
            final(buf)@.len() == old(buf)@.len(),
            final(buf)@ == if result is Ok {
                fetched(*old(dev), ep.index_spec(), old(buf)@)
            } else {
                old(buf)@
            },
            !self.read_served(*old(dev), ep) ==> *final(dev) == *old(dev),
            self.read_served(*old(dev), ep) ==> {
                let idx = ep.index_spec();
                &&& final(dev).same_layout(*old(dev))
                &&& final(dev).ram == old(dev).ram
                &&& final(dev).regs_changed_at(
                    *old(dev),
                    idx,
                    after_read(old(dev).regs(idx), old(buf)@.len() as int, final(dev).descs(idx)),
                )
                &&& old(buf)@.len() != 0 ==> final(dev).regs(idx).armed.bank0 == final(dev).desc(
                    idx,
                    UsbDirection::Out,
                )
                &&& result is Ok ==> final(dev).descs_changed_at(
                    *old(dev),
                    idx,
                    UsbDirection::Out,
                    loaded(old(dev).desc(idx, UsbDirection::Out), 0),
                )
                &&& result is Err ==> final(dev).same_descriptors(*old(dev))
                &&& old(buf)@.len() == 0 ==> ready(final(dev).regs(idx), UsbDirection::Out)
                    == ready(old(dev).regs(idx), UsbDirection::Out)
                &&& !transfer_complete(final(dev).regs(idx), UsbDirection::Out)
            },
    {
        let bank = match self.bank0(ep) {
            Ok(bank) => bank,
            Err(e) => {
                return Err(e);
            },
        };
        let rxstp = bank.received_setup_interrupt(dev);
        if bank.is_ready(dev) || rxstp {
            let size = bank.read(dev, buf);
            let ghost copied = *dev;
            release(dev, &bank, rxstp, buf.len() != 0);
            proof {
                let idx = ep.index_spec();
                assert(copied.regs(idx) == old(dev).regs(idx));
                if size is Ok {
                    assert forall|i: int, d: UsbDirection|
                        0 <= i < ENDPOINT_COUNT && !(i == idx && d == UsbDirection::Out)
                            implies #[trigger] dev.desc(i, d) == old(dev).desc(i, d) by {
                        assert(copied.desc(i, d) == old(dev).desc(i, d));
                    }
                    assert(dev.desc(idx, UsbDirection::Out) == copied.desc(idx, UsbDirection::Out));
                }
                assert(dev.descs(idx) == copied.descs(idx));
            }
            size
        } else {
            Err(UsbError::WouldBlock)
        }
    }
}

impl UsbBus {
    /// What the exchange of the buffer of `ep` for `buffer` answers, but
    /// for the buffer that is given back.
    pub open spec fn swap_outcome(self, dev: Device, ep: EndpointAddress, buffer: DmaBuffer)
        -> Result<(), UsbError> {
        if !self.has_bank(ep, UsbDirection::Out) {
            Err(UsbError::InvalidEndpoint)
        } else if !has_data(dev.regs(ep.index_spec())) {
            Err(UsbError::WouldBlock)
        } else if !dma_aligned(buffer.address as int) {
            Err(UsbError::Unsupported)
        } else if dev.desc(ep.index_spec(), UsbDirection::Out).endpoint_size > buffer.size {
            Err(UsbError::BufferOverflow)
        } else {
            Ok(())
        }
    }

    /// Takes the packet that the OUT endpoint `ep` has received by taking
    /// the buffer that it lies in, and gives the endpoint `buffer` to
    /// receive into next. Between the two buffers there is no moment at
    /// which a packet could be lost. Answers with the buffer that was in
    /// place and the number of bytes received into it.
    pub fn swap_read_dma(&self, dev: &mut Device, ep: EndpointAddress, buffer: DmaBuffer) -> (result:
        Result<(UsbReadBuffer, usize), UsbError>)
        ensures
            match result {
                Ok(_) => Ok::<(), UsbError>(()),
                Err(e) => Err::<(), UsbError>(e),
            } == self.swap_outcome(*old(dev), ep, buffer),
            result is Err ==> *final(dev) == *old(dev),
            result is Ok ==> {
                let idx = ep.index_spec();
                let desc = old(dev).desc(idx, UsbDirection::Out);
                &&& result->Ok_0 == (
                    UsbReadBuffer { pointer: desc.address, size: 0 },
                    desc.byte_count as usize,
                )
                &&& final(dev).same_layout(*old(dev))
                &&& final(dev).ram == old(dev).ram
                &&& final(dev).descs_changed_at(
                    *old(dev),
                    idx,
                    UsbDirection::Out,
                    rearmed(desc, buffer.address, 0),
                )
                &&& final(dev).regs_changed_at(
                    *old(dev),
                    idx,
                    after_read(old(dev).regs(idx), 1, final(dev).descs(idx)),
                )
                &&& final(dev).regs(idx).armed.bank0 == final(dev).desc(idx, UsbDirection::Out)
            },
    {
        let mut bank = match self.bank0(ep) {
            Ok(bank) => bank,
            Err(e) => {
                return Err(e);
            },
        };
        let rxstp = bank.received_setup_interrupt(dev);
        if bank.is_ready(dev) || rxstp {
            let prev_read = match bank.swap_read_dma(dev, buffer) {
                Ok(prev_read) => prev_read,
                Err(e) => {
                    return Err(e);
                },
            };
            let ghost swapped = *dev;
            release(dev, &bank, rxstp, true);
            proof {
                let idx = ep.index_spec();
                assert(swapped.regs(idx) == old(dev).regs(idx));
                assert forall|i: int, d: UsbDirection|
                    0 <= i < ENDPOINT_COUNT && !(i == idx && d == UsbDirection::Out)
                        implies #[trigger] dev.desc(i, d) == old(dev).desc(i, d) by {
                    assert(swapped.desc(i, d) == old(dev).desc(i, d));
                }
                assert(dev.desc(idx, UsbDirection::Out) == swapped.desc(idx, UsbDirection::Out));
                assert(dev.descs(idx) == swapped.descs(idx));
            }
            Ok(prev_read)
        } else {
            Err(UsbError::WouldBlock)
        }
    }

    /// How many bytes wait to be read on `ep`, if it names an allocated
    /// OUT endpoint that has something to read.
    pub fn can_read(&self, dev: &Device, ep: EndpointAddress) -> (count: Option<usize>)
        ensures
            count == if self.read_served(*dev, ep) {
                Some(received(*dev, ep.index_spec()) as usize)
            } else {
                None
            },
    {
        if let Ok(bank) = self.bank0(ep) {
            let rxstp = bank.received_setup_interrupt(dev);
            if bank.is_ready(dev) || rxstp {
                return bank.can_read(dev);
            }
        }
        None
    }

    /// Whether a stall is requested for the endpoint and direction that
    /// `ep` names. An address that names no allocated endpoint is not
    /// stalled.
    pub fn is_stalled(&self, dev: &Device, ep: EndpointAddress) -> (is_stalled: bool)
        ensures
            is_stalled == (self.has_bank(ep, ep.direction_spec()) && stalled(
                dev.regs(ep.index_spec()),
                ep.direction_spec(),
            )),
    {
        if ep.is_out() {
            match self.bank0(ep) {
                Ok(bank) => bank.is_stalled(dev),
                Err(_) => false,
            }
        } else {
            match self.bank1(ep) {
                Ok(bank) => bank.is_stalled(dev),
                Err(_) => false,
            }
        }
    }

    /// Requests a stall for the endpoint and direction that `ep` names, or
    /// withdraws the request. Nothing happens when `ep` names no allocated
    /// endpoint.
    pub fn set_stall(&self, dev: &mut Device, ep: EndpointAddress, stall: bool)
        ensures
            self.has_bank(ep, ep.direction_spec()) ==> final(dev).only_endpoint_changed(
                *old(dev),
                ep.index_spec(),
                with_stall(old(dev).regs(ep.index_spec()), ep.direction_spec(), stall),
            ),
            !self.has_bank(ep, ep.direction_spec()) ==> *final(dev) == *old(dev),
    {
        if ep.is_out() {
            if let Ok(bank) = self.bank0(ep) {
                bank.set_stall(dev, stall);
            }
        } else if let Ok(bank) = self.bank1(ep) {
            bank.set_stall(dev, stall);
        }
    }

    /// Requests a stall for the endpoint and direction that `ep` names, or
    /// withdraws the request.
    pub fn set_stalled(&self, dev: &mut Device, ep: EndpointAddress, stalled: bool)
        ensures
            self.has_bank(ep, ep.direction_spec()) ==> final(dev).only_endpoint_changed(
                *old(dev),
                ep.index_spec(),
                with_stall(old(dev).regs(ep.index_spec()), ep.direction_spec(), stalled),
            ),
            !self.has_bank(ep, ep.direction_spec()) ==> *final(dev) == *old(dev),
    {
        self.set_stall(dev, ep, stalled);
    }
}

/// An endpoint whose IN packet has been sent is reported for that alone:
/// a poll reports neither a SETUP packet nor a received packet on it, and
/// leaves the flag of a SETUP packet as it is, for the next poll to report.
pub proof fn lemma_sent_packet_hides_out_bank(regs: EpRegisters)
    requires
        write_complete(regs),
    ensures
        !setup_pending(regs),
        !readable(regs),
        polled(regs).intflag.rxstp == regs.intflag.rxstp,
        polled(regs).status == regs.status,
        !write_complete(polled(regs)),
{
}

/// A read into an empty buffer leaves the OUT bank as ready as it was, and
/// still acknowledges the transfer. A read into any other buffer frees the
/// bank.
pub proof fn lemma_empty_read_keeps_ready(regs: EpRegisters, descs: EndpointDescriptors)
    ensures
        ready(after_read(regs, 0, descs), UsbDirection::Out) == ready(regs, UsbDirection::Out),
        !transfer_complete(after_read(regs, 0, descs), UsbDirection::Out),
        forall|len: int|
            len != 0 ==> !ready(#[trigger] after_read(regs, len, descs), UsbDirection::Out),
{
}

/// An address made of an index below the number of endpoints names that
/// endpoint and that direction.
pub proof fn lemma_parts_in_range(idx: int)
    requires
        0 <= idx < ENDPOINT_COUNT,
    ensures
        forall|dir: UsbDirection| #[trigger]
            EndpointAddress::parts(idx, dir) & 0x7f == idx && ((EndpointAddress::parts(idx, dir)
                & 0x80 != 0) == (dir == UsbDirection::In)),
{
    assert forall|dir: UsbDirection| #[trigger]
        EndpointAddress::parts(idx, dir) & 0x7f == idx && ((EndpointAddress::parts(idx, dir) & 0x80
            != 0) == (dir == UsbDirection::In)) by {
        crate::usb::types::lemma_address_round_trip(idx, dir);
    }
}

} // verus!
