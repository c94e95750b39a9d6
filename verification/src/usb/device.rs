//! A plain-data model of the peripheral as software sees it: the register
//! file, the descriptor table that the DMA engine reads, and the packet
//! memory.
//!
//! Every field is public, so that whatever plays the part of the hardware
//! can raise a flag or deposit a packet between two calls of the driver.
//! The methods are the register accesses that the driver makes, each with
//! the effect that the access has on the peripheral.

use crate::usb::buffers::BUFFER_SIZE;
use crate::usb::endpoints::ENDPOINT_COUNT;
use crate::usb::mask::{bit, set_bit};
use crate::usb::types::{EndpointTypeBits, UsbDirection};
use vstd::prelude::*;

verus! {

/// The status bits of one endpoint. Used as a mask when written to the
/// status set or status clear register.
#[derive(Clone, Copy, PartialEq, Eq, Structural, Debug)]
pub struct EpStatus {
    /// Bank 0 (OUT) holds a received packet.
    pub bk0rdy: bool,
    /// Bank 1 (IN) holds a packet waiting to be sent.
    pub bk1rdy: bool,
    /// A stall is requested for OUT transfers.
    pub stallrq0: bool,
    /// A stall is requested for IN transfers.
    pub stallrq1: bool,
}

impl EpStatus {
    pub open spec fn none() -> EpStatus {
        EpStatus { bk0rdy: false, bk1rdy: false, stallrq0: false, stallrq1: false }
    }

    /// The bits of `self` together with those of `mask`.
    pub open spec fn with(self, mask: EpStatus) -> EpStatus {
        EpStatus {
            bk0rdy: self.bk0rdy || mask.bk0rdy,
            bk1rdy: self.bk1rdy || mask.bk1rdy,
            stallrq0: self.stallrq0 || mask.stallrq0,
            stallrq1: self.stallrq1 || mask.stallrq1,
        }
    }

    /// The bits of `self` that are not in `mask`.
    pub open spec fn without(self, mask: EpStatus) -> EpStatus {
        EpStatus {
            bk0rdy: self.bk0rdy && !mask.bk0rdy,
            bk1rdy: self.bk1rdy && !mask.bk1rdy,
            stallrq0: self.stallrq0 && !mask.stallrq0,
            stallrq1: self.stallrq1 && !mask.stallrq1,
        }
    }

    pub fn empty() -> (status: Self)
        ensures
            status == Self::none(),
    {
        EpStatus { bk0rdy: false, bk1rdy: false, stallrq0: false, stallrq1: false }
    }
}

/// The interrupt sources of one endpoint. The same shape serves as the flag
/// register, as the enable register, and as a mask written to either.
#[derive(Clone, Copy, PartialEq, Eq, Structural, Debug)]
pub struct EpIntFlags {
    /// An OUT transfer has completed.
    pub trcpt0: bool,
    /// An IN transfer has completed.
    pub trcpt1: bool,
    /// An OUT transfer has failed.
    pub trfail0: bool,
    /// An IN transfer has failed.
    pub trfail1: bool,
    /// A SETUP packet has been received.
    pub rxstp: bool,
    /// A stall handshake has been sent for an OUT transfer.
    pub stall0: bool,
    /// A stall handshake has been sent for an IN transfer.
    pub stall1: bool,
}

impl EpIntFlags {
    pub open spec fn none() -> EpIntFlags {
        EpIntFlags {
            trcpt0: false,
            trcpt1: false,
            trfail0: false,
            trfail1: false,
            rxstp: false,
            stall0: false,
            stall1: false,
        }
    }

    /// The sources of `self` together with those of `mask`.
    pub open spec fn with(self, mask: EpIntFlags) -> EpIntFlags {
        EpIntFlags {
            trcpt0: self.trcpt0 || mask.trcpt0,
            trcpt1: self.trcpt1 || mask.trcpt1,
            trfail0: self.trfail0 || mask.trfail0,
            trfail1: self.trfail1 || mask.trfail1,
            rxstp: self.rxstp || mask.rxstp,
            stall0: self.stall0 || mask.stall0,
            stall1: self.stall1 || mask.stall1,
        }
    }

    /// The sources of `self` that are not in `mask`.
    pub open spec fn without(self, mask: EpIntFlags) -> EpIntFlags {
        EpIntFlags {
            trcpt0: self.trcpt0 && !mask.trcpt0,
            trcpt1: self.trcpt1 && !mask.trcpt1,
            trfail0: self.trfail0 && !mask.trfail0,
            trfail1: self.trfail1 && !mask.trfail1,
            rxstp: self.rxstp && !mask.rxstp,
            stall0: self.stall0 && !mask.stall0,
            stall1: self.stall1 && !mask.stall1,
        }
    }

    /// Whether some source is in both `self` and `mask`.
    pub open spec fn meets(self, mask: EpIntFlags) -> bool {
        ||| self.trcpt0 && mask.trcpt0
        ||| self.trcpt1 && mask.trcpt1
        ||| self.trfail0 && mask.trfail0
        ||| self.trfail1 && mask.trfail1
        ||| self.rxstp && mask.rxstp
        ||| self.stall0 && mask.stall0
        ||| self.stall1 && mask.stall1
    }

    pub fn empty() -> (flags: Self)
        ensures
            flags == Self::none(),
    {
        EpIntFlags {
            trcpt0: false,
            trcpt1: false,
            trfail0: false,
            trfail1: false,
            rxstp: false,
            stall0: false,
            stall1: false,
        }
    }
}

/// The registers of one endpoint.
#[derive(Clone, Copy, PartialEq, Eq, Structural, Debug)]
pub struct EpRegisters {
    /// Type of the OUT direction in the configuration register.
    pub eptype0: EndpointTypeBits,
    /// Type of the IN direction in the configuration register.
    pub eptype1: EndpointTypeBits,
    pub status: EpStatus,
    pub intflag: EpIntFlags,
    /// The interrupt sources that are unmasked.
    pub inten: EpIntFlags,
    /// The descriptors of the endpoint as the peripheral found them when
    /// the types were last written, which is when it takes up an endpoint.
    pub found: EndpointDescriptors,
    /// The descriptor of each bank as the peripheral found it when the bank
    /// was last handed to it: for the IN bank, when the bank was set ready;
    /// for the OUT bank, when the bank was freed by clearing its ready bit.
    pub armed: EndpointDescriptors,
}

impl EpRegisters {
    /// The registers of an endpoint after a reset of the peripheral.
    pub open spec fn reset() -> EpRegisters {
        EpRegisters {
            eptype0: EndpointTypeBits::Disabled,
            eptype1: EndpointTypeBits::Disabled,
            status: EpStatus::none(),
            intflag: EpIntFlags::none(),
            inten: EpIntFlags::none(),
            found: EndpointDescriptors::zeroed(),
            armed: EndpointDescriptors::zeroed(),
        }
    }

    /// Whether the configuration register gives some direction a type. The
    /// peripheral ignores a write to the interrupt enable register of an
    /// endpoint for which this does not hold.
    pub open spec fn configured(self) -> bool {
        self.eptype0 != EndpointTypeBits::Disabled || self.eptype1 != EndpointTypeBits::Disabled
    }

    /// Whether the endpoint raises its bit in the interrupt summary: some
    /// unmasked source has its flag set.
    pub open spec fn interrupting(self) -> bool {
        self.intflag.meets(self.inten)
    }

    /// The registers after `mask` has been written to the status set
    /// register while the endpoint's descriptors were `descs`. Setting the
    /// IN bank ready hands it to the peripheral, which takes the bank's
    /// descriptor as it is then.
    pub open spec fn status_set(self, mask: EpStatus, descs: EndpointDescriptors) -> EpRegisters {
        EpRegisters {
            status: self.status.with(mask),
            armed: if mask.bk1rdy {
                EndpointDescriptors { bank1: descs.bank1, ..self.armed }
            } else {
                self.armed
            },
            ..self
        }
    }

    /// The registers after `mask` has been written to the status clear
    /// register while the endpoint's descriptors were `descs`. Clearing the
    /// ready bit of the OUT bank hands the bank to the peripheral, which
    /// takes the bank's descriptor as it is then.
    pub open spec fn status_cleared(self, mask: EpStatus, descs: EndpointDescriptors)
        -> EpRegisters {
        EpRegisters {
            status: self.status.without(mask),
            armed: if mask.bk0rdy {
                EndpointDescriptors { bank0: descs.bank0, ..self.armed }
            } else {
                self.armed
            },
            ..self
        }
    }

    /// The registers after `mask` has been written to the interrupt flag
    /// register: a flag is cleared by writing a one to it.
    pub open spec fn flags_cleared(self, mask: EpIntFlags) -> EpRegisters {
        EpRegisters { intflag: self.intflag.without(mask), ..self }
    }

    /// The registers after `mask` has been written to the interrupt enable
    /// set register.
    pub open spec fn interrupts_enabled(self, mask: EpIntFlags) -> EpRegisters {
        if self.configured() {
            EpRegisters { inten: self.inten.with(mask), ..self }
        } else {
            self
        }
    }

    /// The registers after the two types have been written to the
    /// configuration register while the endpoint's descriptors were
    /// `descs`. The write switches the endpoint on, and the peripheral
    /// takes the descriptors as they are then.
    pub open spec fn typed(
        self,
        eptype0: EndpointTypeBits,
        eptype1: EndpointTypeBits,
        descs: EndpointDescriptors,
    ) -> EpRegisters {
        EpRegisters { eptype0, eptype1, found: descs, ..self }
    }
}

/// The descriptor of one bank, as the DMA engine reads and writes it.
#[derive(Clone, Copy, PartialEq, Eq, Structural, Debug)]
pub struct DeviceDescBank {
    /// Address of the bank's buffer.
    pub address: usize,
    /// Capacity of the bank in bytes: one of the eight sizes that the
    /// peripheral knows.
    pub endpoint_size: u16,
    pub multi_packet_size: u16,
    /// Number of bytes that the buffer holds.
    pub byte_count: u16,
}

impl DeviceDescBank {
    /// A descriptor with every field zero, which stands for the smallest
    /// capacity.
    pub open spec fn zeroed() -> DeviceDescBank {
        DeviceDescBank { address: 0, endpoint_size: 8, multi_packet_size: 0, byte_count: 0 }
    }
}

/// The descriptors of both banks of an endpoint: `bank0` is OUT, `bank1` is
/// IN.
#[derive(Clone, Copy, PartialEq, Eq, Structural, Debug)]
pub struct EndpointDescriptors {
    pub bank0: DeviceDescBank,
    pub bank1: DeviceDescBank,
}

impl EndpointDescriptors {
    /// Both descriptors with every field zero.
    pub open spec fn zeroed() -> EndpointDescriptors {
        EndpointDescriptors { bank0: DeviceDescBank::zeroed(), bank1: DeviceDescBank::zeroed() }
    }
}

/// The interrupt sources of the peripheral as a whole: flag register,
/// enable register, or a mask for either.
#[derive(Clone, Copy, PartialEq, Eq, Structural, Debug)]
pub struct IntFlags {
    pub suspend: bool,
    pub sof: bool,
    pub eorst: bool,
    pub wakeup: bool,
    pub eorsm: bool,
    pub uprsm: bool,
    pub ramacer: bool,
    pub lpmnyet: bool,
    pub lpmsusp: bool,
}

impl IntFlags {
    pub open spec fn none() -> IntFlags {
        IntFlags {
            suspend: false,
            sof: false,
            eorst: false,
            wakeup: false,
            eorsm: false,
            uprsm: false,
            ramacer: false,
            lpmnyet: false,
            lpmsusp: false,
        }
    }

    pub fn empty() -> (flags: Self)
        ensures
            flags == Self::none(),
    {
        IntFlags {
            suspend: false,
            sof: false,
            eorst: false,
            wakeup: false,
            eorsm: false,
            uprsm: false,
            ramacer: false,
            lpmnyet: false,
            lpmsusp: false,
        }
    }
}

/// The pad calibration: three trim values, measured at the factory and
/// copied into the peripheral when it is enabled.
#[derive(Clone, Copy, PartialEq, Eq, Structural, Debug)]
pub struct PadCalibration {
    pub transn: u8,
    pub transp: u8,
    pub trim: u8,
}

/// Operating mode of the peripheral.
#[derive(Clone, Copy, PartialEq, Eq, Structural, Debug)]
pub enum Mode {
    Device,
    Host,
}

/// Bus speed of the peripheral in device mode.
#[derive(Clone, Copy, PartialEq, Eq, Structural, Debug)]
pub enum Speed {
    Full,
    Low,
}

/// Everything that software sets up before the device goes on the bus.
#[derive(Clone, Copy, Debug, PartialEq, Eq)]
pub struct Configuration {
    pub enabled: bool,
    pub mode: Mode,
    pub run_in_standby: bool,
    pub speed: Speed,
    pub descadd: u32,
    pub padcal: PadCalibration,
    pub dqos: u8,
    pub cqos: u8,
    pub intflag: IntFlags,
    pub inten: IntFlags,
    pub endpoints: [EpRegisters; 8],
    pub descriptors: [EndpointDescriptors; 8],
}

/// The peripheral.
#[derive(Clone, Copy, Debug)]
pub struct Device {
    /// The peripheral is switched on.
    pub enabled: bool,
    pub mode: Mode,
    pub run_in_standby: bool,
    pub speed: Speed,
    /// The peripheral keeps off the bus, so that the host sees no device.
    pub detached: bool,
    /// Address of the descriptor table, as the peripheral has been told.
    pub descadd: u32,
    pub padcal: PadCalibration,
    /// Quality of service for data accesses, two bits.
    pub dqos: u8,
    /// Quality of service for configuration accesses, two bits.
    pub cqos: u8,
    /// Address of the device on the bus, seven bits.
    pub dadd: u8,
    /// The address in `dadd` is in force.
    pub adden: bool,
    pub intflag: IntFlags,
    /// The interrupt sources that are unmasked.
    pub inten: IntFlags,
    pub endpoints: [EpRegisters; 8],
    /// The descriptor table, which lives in memory that the DMA engine
    /// shares with software.
    pub descriptors: [EndpointDescriptors; 8],
    /// Address at which the descriptor table lies.
    pub descriptor_address: u32,
    /// The factory's calibration values.
    pub calibration: PadCalibration,
    /// Address of the first byte of the packet memory.
    pub ram_base: usize,
    /// The packet memory.
    pub ram: [u8; 2048],
    /// What the peripheral was set up as when it was last switched on:
    /// from then on it works with the addresses, the calibration and the
    /// mode that it finds.
    pub switched_on_with: Configuration,
    /// What the peripheral was set up as when the device last went on the
    /// bus: from then on the host may talk to it.
    pub attached_with: Configuration,
}

impl Device {
    /// What the peripheral is set up as.
    pub open spec fn configuration(self) -> Configuration {
        Configuration {
            enabled: self.enabled,
            mode: self.mode,
            run_in_standby: self.run_in_standby,
            speed: self.speed,
            descadd: self.descadd,
            padcal: self.padcal,
            dqos: self.dqos,
            cqos: self.cqos,
            intflag: self.intflag,
            inten: self.inten,
            endpoints: self.endpoints,
            descriptors: self.descriptors,
        }
    }

    /// The descriptors of both banks of endpoint `idx`.
    pub open spec fn descs(self, idx: int) -> EndpointDescriptors {
        self.descriptors[idx]
    }

    /// The registers of endpoint `idx`.
    pub open spec fn regs(self, idx: int) -> EpRegisters {
        self.endpoints[idx]
    }

    /// Whether the `len` bytes that start at `addr` all lie in the packet
    /// memory.
    pub open spec fn in_ram(self, addr: int, len: int) -> bool {
        &&& 0 <= len
        &&& self.ram_base <= addr
        &&& addr + len <= self.ram_base + BUFFER_SIZE
    }

    /// The `len` bytes of packet memory that start at `addr`.
    pub open spec fn ram_bytes(self, addr: int, len: int) -> Seq<u8> {
        self.ram@.subrange(addr - self.ram_base, addr - self.ram_base + len)
    }

    /// Whether everything but the packet memory and the descriptor table is
    /// as a reset of the peripheral leaves it.
    pub open spec fn registers_reset(self) -> bool {
        &&& !self.enabled
        &&& self.mode == Mode::Device
        &&& !self.run_in_standby
        &&& self.speed == Speed::Full
        &&& self.detached
        &&& self.descadd == 0
        &&& self.padcal == (PadCalibration { transn: 0, transp: 0, trim: 0 })
        &&& self.dqos == 0
        &&& self.cqos == 0
        &&& self.dadd == 0
        &&& !self.adden
        &&& self.intflag == IntFlags::none()
        &&& self.inten == IntFlags::none()
        &&& forall|i: int| 0 <= i < ENDPOINT_COUNT ==> #[trigger] self.regs(i) == EpRegisters::reset()
    }

    /// The descriptor of direction `dir` of endpoint `idx`.
    pub open spec fn desc(self, idx: int, dir: UsbDirection) -> DeviceDescBank {
        match dir {
            UsbDirection::Out => self.descriptors[idx].bank0,
            UsbDirection::In => self.descriptors[idx].bank1,
        }
    }

    /// Whether `other` lies at the same addresses and has the same
    /// calibration values: what no access of the driver changes.
    pub open spec fn same_layout(self, other: Device) -> bool {
        &&& self.descriptor_address == other.descriptor_address
        &&& self.calibration == other.calibration
        &&& self.ram_base == other.ram_base
    }

    /// Whether `other` has the same descriptor table.
    pub open spec fn same_descriptors(self, other: Device) -> bool {
        self.descriptors == other.descriptors
    }

    /// Whether `other` has the same descriptor table and packet memory, at
    /// the same addresses, and the same calibration values: all that is not
    /// a register.
    pub open spec fn same_memory(self, other: Device) -> bool {
        &&& self.same_layout(other)
        &&& self.same_descriptors(other)
        &&& self.ram == other.ram
    }

    /// Whether `other` has the same registers apart from those of the
    /// endpoints.
    pub open spec fn same_globals(self, other: Device) -> bool {
        &&& self.enabled == other.enabled
        &&& self.mode == other.mode
        &&& self.run_in_standby == other.run_in_standby
        &&& self.speed == other.speed
        &&& self.detached == other.detached
        &&& self.descadd == other.descadd
        &&& self.padcal == other.padcal
        &&& self.dqos == other.dqos
        &&& self.cqos == other.cqos
        &&& self.dadd == other.dadd
        &&& self.adden == other.adden
        &&& self.intflag == other.intflag
        &&& self.inten == other.inten
        &&& self.switched_on_with == other.switched_on_with
        &&& self.attached_with == other.attached_with
    }

    /// Whether `other` has the same registers.
    pub open spec fn same_registers(self, other: Device) -> bool {
        &&& self.same_globals(other)
        &&& self.endpoints == other.endpoints
    }

    /// Whether the registers are those of `old` but for endpoint `idx`,
    /// whose registers are `regs`.
    pub open spec fn regs_changed_at(self, old: Device, idx: int, regs: EpRegisters) -> bool {
        &&& self.same_globals(old)
        &&& self.regs(idx) == regs
        &&& forall|i: int| 0 <= i < ENDPOINT_COUNT && i != idx ==> #[trigger] self.regs(i) == old.regs(i)
    }

    /// Whether the descriptor table is that of `old` but for direction
    /// `dir` of endpoint `idx`, whose descriptor is `desc`.
    pub open spec fn descs_changed_at(
        self,
        old: Device,
        idx: int,
        dir: UsbDirection,
        desc: DeviceDescBank,
    ) -> bool {
        &&& self.desc(idx, dir) == desc
        &&& forall|i: int, d: UsbDirection|
            0 <= i < ENDPOINT_COUNT && !(i == idx && d == dir) ==> #[trigger] self.desc(i, d)
                == old.desc(i, d)
    }

    /// Whether only the descriptor of direction `dir` of endpoint `idx`
    /// differs from `old`, and is `desc` now.
    pub open spec fn only_descriptor_changed(
        self,
        old: Device,
        idx: int,
        dir: UsbDirection,
        desc: DeviceDescBank,
    ) -> bool {
        &&& self.same_registers(old)
        &&& self.same_layout(old)
        &&& self.ram == old.ram
        &&& self.descs_changed_at(old, idx, dir, desc)
    }

    /// Whether the packet memory is that of `old` with `data` laid over it
    /// from `addr` on.
    pub open spec fn ram_changed_at(self, old: Device, addr: int, data: Seq<u8>) -> bool {
        forall|k: int|
            0 <= k < BUFFER_SIZE ==> #[trigger] self.ram[k] == if addr - old.ram_base <= k < addr
                - old.ram_base + data.len() {
                data[k - (addr - old.ram_base)]
            } else {
                old.ram[k]
            }
    }

    /// The `len` bytes of packet memory that start at `addr`; nothing when
    /// `len` is zero, wherever `addr` points.
    pub open spec fn packet(self, addr: int, len: int) -> Seq<u8> {
        if len <= 0 {
            Seq::<u8>::empty()
        } else {
            self.ram_bytes(addr, len)
        }
    }

    /// Whether the packet memory is that of `old` with `data` laid over it
    /// from `addr` on, and nothing else differs.
    pub open spec fn only_ram_changed(self, old: Device, addr: int, data: Seq<u8>) -> bool {
        &&& self.same_registers(old)
        &&& self.same_layout(old)
        &&& self.same_descriptors(old)
        &&& self.ram_changed_at(old, addr, data)
    }

    /// The interrupt summary: bit `n` is set when endpoint `n` has an
    /// unmasked source with its flag set.
    pub open spec fn summary_bit(self, idx: int) -> bool {
        self.regs(idx).interrupting()
    }

    /// A peripheral fresh from reset, with zeroed packet memory at
    /// `ram_base` and a zeroed descriptor table at `descriptor_address`.
    pub fn new(ram_base: usize, descriptor_address: u32, calibration: PadCalibration) -> (dev:
        Self)
        ensures
            dev.registers_reset(),
            dev.ram_base == ram_base,
            dev.descriptor_address == descriptor_address,
            dev.calibration == calibration,
            dev.switched_on_with == dev.configuration(),
            dev.attached_with == dev.configuration(),
            forall|i: int| 0 <= i < BUFFER_SIZE ==> dev.ram[i] == 0,
            forall|i: int|
                0 <= i < ENDPOINT_COUNT ==> (#[trigger] dev.descriptors[i]).bank0
                    == DeviceDescBank::zeroed() && dev.descriptors[i].bank1
                    == DeviceDescBank::zeroed(),
    {
        let bank = DeviceDescBank {
            address: 0,
            endpoint_size: 8,
            multi_packet_size: 0,
            byte_count: 0,
        };
        let descs = EndpointDescriptors { bank0: bank, bank1: bank };
        let regs = EpRegisters {
            eptype0: EndpointTypeBits::Disabled,
            eptype1: EndpointTypeBits::Disabled,
            status: EpStatus::empty(),
            intflag: EpIntFlags::empty(),
            inten: EpIntFlags::empty(),
            found: descs,
            armed: descs,
        };
        let padcal = PadCalibration { transn: 0, transp: 0, trim: 0 };
        Device {
            enabled: false,
            mode: Mode::Device,
            run_in_standby: false,
            speed: Speed::Full,
            detached: true,
            descadd: 0,
            padcal: PadCalibration { transn: 0, transp: 0, trim: 0 },
            dqos: 0,
            cqos: 0,
            dadd: 0,
            adden: false,
            intflag: IntFlags::empty(),
            inten: IntFlags::empty(),
            endpoints: [regs; 8],
            descriptors: [descs; 8],
            descriptor_address,
            calibration,
            ram_base,
            ram: [0u8; 2048],
            switched_on_with: Configuration {
                enabled: false,
                mode: Mode::Device,
                run_in_standby: false,
                speed: Speed::Full,
                descadd: 0,
                padcal,
                dqos: 0,
                cqos: 0,
                intflag: IntFlags::empty(),
                inten: IntFlags::empty(),
                endpoints: [regs; 8],
                descriptors: [descs; 8],
            },
            attached_with: Configuration {
                enabled: false,
                mode: Mode::Device,
                run_in_standby: false,
                speed: Speed::Full,
                descadd: 0,
                padcal,
                dqos: 0,
                cqos: 0,
                intflag: IntFlags::empty(),
                inten: IntFlags::empty(),
                endpoints: [regs; 8],
                descriptors: [descs; 8],
            },
        }
    }

    /// Resets the peripheral through its control register. Every register
    /// returns to its reset value; memory is not touched.
    pub fn software_reset(&mut self)
        ensures
            final(self).registers_reset(),
            final(self).same_memory(*old(self)),
            final(self).switched_on_with == old(self).switched_on_with,
            final(self).attached_with == old(self).attached_with,
    {
        let bank = DeviceDescBank {
            address: 0,
            endpoint_size: 8,
            multi_packet_size: 0,
            byte_count: 0,
        };
        let descs = EndpointDescriptors { bank0: bank, bank1: bank };
        let regs = EpRegisters {
            eptype0: EndpointTypeBits::Disabled,
            eptype1: EndpointTypeBits::Disabled,
            status: EpStatus::empty(),
            intflag: EpIntFlags::empty(),
            inten: EpIntFlags::empty(),
            found: descs,
            armed: descs,
        };
        self.enabled = false;
        self.mode = Mode::Device;
        self.run_in_standby = false;
        self.speed = Speed::Full;
        self.detached = true;
        self.descadd = 0;
        self.padcal = PadCalibration { transn: 0, transp: 0, trim: 0 };
        self.dqos = 0;
        self.cqos = 0;
        self.dadd = 0;
        self.adden = false;
        self.intflag = IntFlags::empty();
        self.inten = IntFlags::empty();
        self.endpoints = [regs; 8];
    }

    /// Reads the status register of endpoint `idx`.
    pub fn epstatus(&self, idx: usize) -> (status: EpStatus)
        requires
            idx < ENDPOINT_COUNT,
        ensures
            status == self.regs(idx as int).status,
    {
        self.endpoints[idx].status
    }

    /// Reads the interrupt flag register of endpoint `idx`.
    pub fn epintflag(&self, idx: usize) -> (flags: EpIntFlags)
        requires
            idx < ENDPOINT_COUNT,
        ensures
            flags == self.regs(idx as int).intflag,
    {
        self.endpoints[idx].intflag
    }

    /// Whether only the registers of endpoint `idx` differ from `old`, and
    /// are `regs` now.
    pub open spec fn only_endpoint_changed(self, old: Device, idx: int, regs: EpRegisters)
        -> bool {
        &&& self.regs_changed_at(old, idx, regs)
        &&& self.same_memory(old)
    }

    /// Writes `mask` to the status set register of endpoint `idx`.
    pub fn epstatusset(&mut self, idx: usize, mask: EpStatus)
        requires
            idx < ENDPOINT_COUNT,
        ensures
            final(self).only_endpoint_changed(
                *old(self),
                idx as int,
                old(self).regs(idx as int).status_set(mask, old(self).descs(idx as int)),
            ),
    {
        let r = self.endpoints[idx];
        let s = r.status;
        let bank1 = if mask.bk1rdy {
            self.descriptors[idx].bank1
        } else {
            r.armed.bank1
        };
        self.endpoints[idx] = EpRegisters {
            eptype0: r.eptype0,
            eptype1: r.eptype1,
            status: EpStatus {
                bk0rdy: s.bk0rdy || mask.bk0rdy,
                bk1rdy: s.bk1rdy || mask.bk1rdy,
                stallrq0: s.stallrq0 || mask.stallrq0,
                stallrq1: s.stallrq1 || mask.stallrq1,
            },
            intflag: r.intflag,
            inten: r.inten,
            found: r.found,
            armed: EndpointDescriptors { bank0: r.armed.bank0, bank1 },
        };
    }

    /// Writes `mask` to the status clear register of endpoint `idx`.
    pub fn epstatusclr(&mut self, idx: usize, mask: EpStatus)
        requires
            idx < ENDPOINT_COUNT,
        ensures
            final(self).only_endpoint_changed(
                *old(self),
                idx as int,
                old(self).regs(idx as int).status_cleared(mask, old(self).descs(idx as int)),
            ),
    {
        let r = self.endpoints[idx];
        let s = r.status;
        let bank0 = if mask.bk0rdy {
            self.descriptors[idx].bank0
        } else {
            r.armed.bank0
        };
        self.endpoints[idx] = EpRegisters {
            eptype0: r.eptype0,
            eptype1: r.eptype1,
            status: EpStatus {
                bk0rdy: s.bk0rdy && !mask.bk0rdy,
                bk1rdy: s.bk1rdy && !mask.bk1rdy,
                stallrq0: s.stallrq0 && !mask.stallrq0,
                stallrq1: s.stallrq1 && !mask.stallrq1,
            },
            intflag: r.intflag,
            inten: r.inten,
            found: r.found,
            armed: EndpointDescriptors { bank0, bank1: r.armed.bank1 },
        };
    }

    /// Writes `mask` to the interrupt flag register of endpoint `idx`,
    /// which clears the flags that `mask` names.
    pub fn epintflag_clear(&mut self, idx: usize, mask: EpIntFlags)
        requires
            idx < ENDPOINT_COUNT,
        ensures
            final(self).only_endpoint_changed(
                *old(self),
                idx as int,
                old(self).regs(idx as int).flags_cleared(mask),
            ),
    {
        let f = self.endpoints[idx].intflag;
        self.endpoints[idx].intflag = EpIntFlags {
            trcpt0: f.trcpt0 && !mask.trcpt0,
            trcpt1: f.trcpt1 && !mask.trcpt1,
            trfail0: f.trfail0 && !mask.trfail0,
            trfail1: f.trfail1 && !mask.trfail1,
            rxstp: f.rxstp && !mask.rxstp,
            stall0: f.stall0 && !mask.stall0,
            stall1: f.stall1 && !mask.stall1,
        };
    }

    /// Writes `mask` to the interrupt enable set register of endpoint
    /// `idx`. The write has no effect while the endpoint's configuration
    /// register gives neither direction a type.
    pub fn epintenset(&mut self, idx: usize, mask: EpIntFlags)
        requires
            idx < ENDPOINT_COUNT,
        ensures
            final(self).only_endpoint_changed(
                *old(self),
                idx as int,
                old(self).regs(idx as int).interrupts_enabled(mask),
            ),
    {
        let r = self.endpoints[idx];
        if r.eptype0 != EndpointTypeBits::Disabled || r.eptype1 != EndpointTypeBits::Disabled {
            let e = r.inten;
            self.endpoints[idx].inten = EpIntFlags {
                trcpt0: e.trcpt0 || mask.trcpt0,
                trcpt1: e.trcpt1 || mask.trcpt1,
                trfail0: e.trfail0 || mask.trfail0,
                trfail1: e.trfail1 || mask.trfail1,
                rxstp: e.rxstp || mask.rxstp,
                stall0: e.stall0 || mask.stall0,
                stall1: e.stall1 || mask.stall1,
            };
        }
    }

    /// Writes both types to the configuration register of endpoint `idx`.
    pub fn epcfg(&mut self, idx: usize, eptype0: EndpointTypeBits, eptype1: EndpointTypeBits)
        requires
            idx < ENDPOINT_COUNT,
        ensures
            final(self).only_endpoint_changed(
                *old(self),
                idx as int,
                old(self).regs(idx as int).typed(eptype0, eptype1, old(self).descs(idx as int)),
            ),
    {
        let r = self.endpoints[idx];
        self.endpoints[idx] = EpRegisters {
            eptype0,
            eptype1,
            status: r.status,
            intflag: r.intflag,
            inten: r.inten,
            found: self.descriptors[idx],
            armed: r.armed,
        };
    }

    /// Sets the enable bit, which switches the peripheral on, as it is
    /// set up at that moment.
    pub fn switch_on(&mut self)
        ensures
            *final(self) == (Device {
                enabled: true,
                switched_on_with: old(self).configuration(),
                ..*old(self)
            }),
    {
        self.switched_on_with = Configuration {
            enabled: self.enabled,
            mode: self.mode,
            run_in_standby: self.run_in_standby,
            speed: self.speed,
            descadd: self.descadd,
            padcal: self.padcal,
            dqos: self.dqos,
            cqos: self.cqos,
            intflag: self.intflag,
            inten: self.inten,
            endpoints: self.endpoints,
            descriptors: self.descriptors,
        };
        self.enabled = true;
    }

    /// Releases the detach bit, which puts the device on the bus. From
    /// then on the host may talk to the peripheral, as it is set up at
    /// that moment.
    pub fn attach(&mut self)
        ensures
            *final(self) == (Device {
                detached: false,
                attached_with: old(self).configuration(),
                ..*old(self)
            }),
    {
        self.attached_with = Configuration {
            enabled: self.enabled,
            mode: self.mode,
            run_in_standby: self.run_in_standby,
            speed: self.speed,
            descadd: self.descadd,
            padcal: self.padcal,
            dqos: self.dqos,
            cqos: self.cqos,
            intflag: self.intflag,
            inten: self.inten,
            endpoints: self.endpoints,
            descriptors: self.descriptors,
        };
        self.detached = false;
    }

    /// Reads the descriptor of direction `dir` of endpoint `idx`.
    pub fn descriptor(&self, idx: usize, dir: UsbDirection) -> (desc: DeviceDescBank)
        requires
            idx < ENDPOINT_COUNT,
        ensures
            desc == self.desc(idx as int, dir),
    {
        match dir {
            UsbDirection::Out => self.descriptors[idx].bank0,
            UsbDirection::In => self.descriptors[idx].bank1,
        }
    }

    /// Replaces the descriptor of direction `dir` of endpoint `idx`.
    pub fn set_descriptor(&mut self, idx: usize, dir: UsbDirection, desc: DeviceDescBank)
        requires
            idx < ENDPOINT_COUNT,
        ensures
            final(self).only_descriptor_changed(*old(self), idx as int, dir, desc),
    {
        match dir {
            UsbDirection::Out => {
                self.descriptors[idx].bank0 = desc;
            },
            UsbDirection::In => {
                self.descriptors[idx].bank1 = desc;
            },
        }
    }

    /// Whether the `len` bytes that start at `addr` all lie in the packet
    /// memory.
    pub fn contains(&self, addr: usize, len: usize) -> (inside: bool)
        ensures
            inside == self.in_ram(addr as int, len as int),
    {
        addr >= self.ram_base && addr - self.ram_base <= BUFFER_SIZE && len <= BUFFER_SIZE - (addr
            - self.ram_base)
    }

    /// Copies the first `len` bytes of `data` into the packet memory, from
    /// `addr` on.
    pub fn store(&mut self, addr: usize, data: &[u8], len: usize)
        requires
            old(self).in_ram(addr as int, len as int),
            len <= data@.len(),
        ensures
            final(self).only_ram_changed(*old(self), addr as int, data@.take(len as int)),
    {
        let offset: usize = addr - self.ram_base;
        let ghost before = *self;
        let mut k: usize = 0;
        while k < len
            invariant
                k <= len,
                len <= data@.len(),
                offset + len <= BUFFER_SIZE,
                offset == addr - before.ram_base,
                self.same_registers(before),
                self.same_layout(before),
                self.same_descriptors(before),
                forall|j: int|
                    0 <= j < BUFFER_SIZE ==> #[trigger] self.ram[j] == if offset <= j < offset + k {
                        data@[j - offset]
                    } else {
                        before.ram[j]
                    },
            decreases len - k,
        {
            self.ram[offset + k] = data[k];
            k = k + 1;
        }
    }

    /// Copies `len` bytes of packet memory, from `addr` on, to the front of
    /// `buf`.
    pub fn load(&self, addr: usize, buf: &mut [u8], len: usize)
        requires
            self.in_ram(addr as int, len as int),
            len <= old(buf)@.len(),
        ensures
            final(buf)@ == self.packet(addr as int, len as int) + old(buf)@.skip(len as int),
    {
        let offset: usize = addr - self.ram_base;
        let ghost before = buf@;
        let mut k: usize = 0;
        while k < len
            invariant
                k <= len,
                len <= before.len(),
                buf@.len() == before.len(),
                offset + len <= BUFFER_SIZE,
                forall|j: int| 0 <= j < k ==> #[trigger] buf@[j] == self.ram[offset + j],
                forall|j: int| k <= j < before.len() ==> #[trigger] buf@[j] == before[j],
            decreases len - k,
        {
            buf[k] = self.ram[offset + k];
            k = k + 1;
        }
        assert(buf@ =~= self.packet(addr as int, len as int) + before.skip(len as int));
    }

    /// Whether endpoint `idx` raises its bit in the interrupt summary.
    pub fn endpoint_interrupting(&self, idx: usize) -> (raised: bool)
        requires
            idx < ENDPOINT_COUNT,
        ensures
            raised == self.summary_bit(idx as int),
    {
        let f = self.endpoints[idx].intflag;
        let e = self.endpoints[idx].inten;
        (f.trcpt0 && e.trcpt0) || (f.trcpt1 && e.trcpt1) || (f.trfail0 && e.trfail0) || (f.trfail1
            && e.trfail1) || (f.rxstp && e.rxstp) || (f.stall0 && e.stall0) || (f.stall1
            && e.stall1)
    }

    /// Reads the interrupt summary register: bit `n` is set when endpoint
    /// `n` has an unmasked source with its flag set.
    pub fn epintsmry(&self) -> (summary: u16)
        ensures
            forall|k: int| 0 <= k < ENDPOINT_COUNT ==> #[trigger] bit(summary, k) == self.summary_bit(k),
            forall|k: int| ENDPOINT_COUNT <= k < 16 ==> !#[trigger] bit(summary, k),
    {
        let mut summary: u16 = 0;
        let mut idx: u16 = 0;
        proof {
            crate::usb::mask::lemma_zero_mask(0);
        }
        while idx < 8
            invariant
                idx <= 8,
                forall|k: int| 0 <= k < idx ==> #[trigger] bit(summary, k) == self.summary_bit(k),
                forall|k: int| idx <= k < 16 ==> !#[trigger] bit(summary, k),
            decreases 8 - idx,
        {
            if self.endpoint_interrupting(idx as usize) {
                summary = set_bit(summary, idx);
            }
            idx = idx + 1;
        }
        summary
    }
}

} // verus!
