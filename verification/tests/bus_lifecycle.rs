use atsamd_hal::usb::bus::FlushConfigMode;
use atsamd_hal::usb::device::{
    Device, DeviceDescBank, EpIntFlags, EpStatus, IntFlags, Mode, PadCalibration, Speed,
};
use atsamd_hal::usb::{
    EndpointAddress, EndpointType, EndpointTypeBits, UsbBus, UsbDirection,
};

const BASE: usize = 0x2000_0000;
const TABLE: u32 = 0x2000_0800;

fn device() -> Device {
    Device::new(BASE, TABLE, PadCalibration { transn: 5, transp: 29, trim: 3 })
}

fn no_flags() -> EpIntFlags {
    EpIntFlags::empty()
}

fn control_bus(dev: &Device) -> UsbBus {
    let mut bus = UsbBus::new(dev);
    let out = EndpointAddress::from_parts(0, UsbDirection::Out);
    let inn = EndpointAddress::from_parts(0, UsbDirection::In);
    bus.alloc_ep(UsbDirection::Out, Some(out), EndpointType::Control, 8, 0).unwrap();
    bus.alloc_ep(UsbDirection::In, Some(inn), EndpointType::Control, 8, 0).unwrap();
    bus
}

#[test]
fn new_device_is_in_reset_state() {
    let dev = device();
    assert!(!dev.enabled);
    assert!(dev.detached);
    assert_eq!(dev.mode, Mode::Device);
    assert_eq!(dev.speed, Speed::Full);
    assert_eq!(dev.descadd, 0);
    assert_eq!(dev.dadd, 0);
    assert!(!dev.adden);
    assert_eq!(dev.intflag, IntFlags::empty());
    assert_eq!(dev.inten, IntFlags::empty());
    assert_eq!(dev.ram_base, BASE);
    assert_eq!(dev.descriptor_address, TABLE);
    assert!(dev.ram.iter().all(|b| *b == 0));
    for idx in 0..8 {
        assert_eq!(dev.endpoints[idx].eptype0, EndpointTypeBits::Disabled);
        assert_eq!(dev.endpoints[idx].eptype1, EndpointTypeBits::Disabled);
        assert_eq!(dev.endpoints[idx].status, EpStatus::empty());
        assert_eq!(dev.endpoints[idx].intflag, no_flags());
        assert_eq!(dev.endpoints[idx].inten, no_flags());
        assert_eq!(
            dev.descriptors[idx].bank0,
            DeviceDescBank { address: 0, endpoint_size: 8, multi_packet_size: 0, byte_count: 0 }
        );
    }
}

#[test]
fn enable_brings_the_peripheral_up() {
    let mut dev = device();
    let bus = control_bus(&dev);
    dev.intflag.suspend = true;
    dev.intflag.sof = true;
    dev.dadd = 17;
    dev.adden = true;
    bus.enable(&mut dev);
    assert!(dev.enabled);
    assert_eq!(dev.mode, Mode::Device);
    assert!(dev.run_in_standby);
    assert_eq!(dev.speed, Speed::Full);
    assert!(!dev.detached);
    assert_eq!(dev.descadd, TABLE);
    assert_eq!(dev.padcal, PadCalibration { transn: 5, transp: 29, trim: 3 });
    assert_eq!(dev.dqos, 3);
    assert_eq!(dev.cqos, 3);
    assert_eq!(dev.dadd, 0);
    assert!(!dev.adden);
    assert_eq!(dev.intflag, IntFlags::empty());
    let mut only_eorst = IntFlags::empty();
    only_eorst.eorst = true;
    assert_eq!(dev.inten, only_eorst);
}

#[test]
fn enable_configures_allocated_endpoints() {
    let mut dev = device();
    let mut bus = control_bus(&dev);
    let bulk = bus.alloc_ep(UsbDirection::In, None, EndpointType::Bulk, 40, 0).unwrap();
    assert_eq!(bulk.index(), 1);
    bus.enable(&mut dev);

    assert_eq!(dev.endpoints[0].eptype0, EndpointTypeBits::Control);
    assert_eq!(dev.endpoints[0].eptype1, EndpointTypeBits::Control);
    let mut both = no_flags();
    both.rxstp = true;
    both.trfail0 = true;
    both.trcpt0 = true;
    both.trcpt1 = true;
    assert_eq!(dev.endpoints[0].inten, both);
    assert_eq!(
        dev.descriptors[0].bank0,
        DeviceDescBank { address: BASE, endpoint_size: 8, multi_packet_size: 0, byte_count: 0 }
    );
    assert_eq!(
        dev.descriptors[0].bank1,
        DeviceDescBank { address: BASE + 8, endpoint_size: 8, multi_packet_size: 0, byte_count: 0 }
    );

    assert_eq!(dev.endpoints[1].eptype0, EndpointTypeBits::Disabled);
    assert_eq!(dev.endpoints[1].eptype1, EndpointTypeBits::Bulk);
    let mut in_only = no_flags();
    in_only.trcpt1 = true;
    assert_eq!(dev.endpoints[1].inten, in_only);
    assert_eq!(
        dev.descriptors[1].bank1,
        DeviceDescBank { address: BASE + 16, endpoint_size: 64, multi_packet_size: 0, byte_count: 0 }
    );
    assert_eq!(dev.descriptors[1].bank0.address, 0);

    for idx in 2..8 {
        assert_eq!(dev.endpoints[idx].eptype0, EndpointTypeBits::Disabled);
        assert_eq!(dev.endpoints[idx].eptype1, EndpointTypeBits::Disabled);
        assert_eq!(dev.endpoints[idx].inten, no_flags());
        assert_eq!(dev.descriptors[idx].bank0.address, 0);
    }
}

#[test]
fn enable_resets_endpoint_registers_and_keeps_memory() {
    let mut dev = device();
    let bus = control_bus(&dev);
    dev.endpoints[0].status.bk0rdy = true;
    dev.endpoints[0].intflag.trcpt0 = true;
    dev.endpoints[4].status.stallrq1 = true;
    dev.ram[100] = 42;
    dev.descriptors[5].bank0.byte_count = 7;
    bus.enable(&mut dev);
    assert_eq!(dev.endpoints[0].status, EpStatus::empty());
    assert_eq!(dev.endpoints[0].intflag, no_flags());
    assert_eq!(dev.endpoints[4].status, EpStatus::empty());
    assert_eq!(dev.ram[100], 42);
    assert_eq!(dev.descriptors[5].bank0.byte_count, 7);
    assert_eq!(dev.ram_base, BASE);
}

#[test]
fn interrupt_enable_needs_a_configured_endpoint() {
    let mut dev = device();
    let mut mask = no_flags();
    mask.trcpt1 = true;
    dev.epintenset(2, mask);
    assert_eq!(dev.endpoints[2].inten, no_flags());
    dev.epcfg(2, EndpointTypeBits::Disabled, EndpointTypeBits::Bulk);
    dev.epintenset(2, mask);
    assert_eq!(dev.endpoints[2].inten, mask);
}

#[test]
fn setup_ep_interrupts_before_the_type_is_written_does_nothing() {
    let mut dev = device();
    let bus = control_bus(&dev);
    bus.setup_ep_interrupts(&mut dev, EndpointAddress::from_parts(0, UsbDirection::Out));
    assert_eq!(dev.endpoints[0].inten, no_flags());
    bus.flush_ep(&mut dev, 0);
    bus.setup_ep_interrupts(&mut dev, EndpointAddress::from_parts(0, UsbDirection::Out));
    let mut out = no_flags();
    out.rxstp = true;
    out.trfail0 = true;
    out.trcpt0 = true;
    assert_eq!(dev.endpoints[0].inten, out);
    bus.setup_ep_interrupts(&mut dev, EndpointAddress::from_parts(1, UsbDirection::Out));
    assert_eq!(dev.endpoints[1].inten, no_flags());
}

#[test]
fn flush_ep_writes_descriptors_and_types() {
    let mut dev = device();
    let mut bus = UsbBus::new(&dev);
    let addr = bus.alloc_ep(UsbDirection::Out, None, EndpointType::Interrupt, 100, 0).unwrap();
    assert_eq!(addr.index(), 1);
    dev.descriptors[1].bank0.byte_count = 9;
    dev.descriptors[1].bank1.byte_count = 9;
    bus.flush_ep(&mut dev, 1);
    assert_eq!(
        dev.descriptors[1].bank0,
        DeviceDescBank { address: BASE, endpoint_size: 128, multi_packet_size: 0, byte_count: 0 }
    );
    assert_eq!(dev.descriptors[1].bank1.byte_count, 9);
    assert_eq!(dev.endpoints[1].eptype0, EndpointTypeBits::Interrupt);
    assert_eq!(dev.endpoints[1].eptype1, EndpointTypeBits::Disabled);
    assert_eq!(dev.endpoints[1].inten, no_flags());
}

#[test]
fn protocol_reset_only_rearms_endpoint_zero() {
    let mut dev = device();
    let mut bus = control_bus(&dev);
    bus.alloc_ep(UsbDirection::Out, None, EndpointType::Bulk, 64, 0).unwrap();
    bus.enable(&mut dev);
    // The bus reset clears the interrupt enables; descriptors hold data.
    for idx in 0..8 {
        dev.endpoints[idx].inten = no_flags();
    }
    dev.descriptors[0].bank0.byte_count = 8;
    dev.descriptors[1].bank0.byte_count = 33;
    dev.endpoints[1].eptype0 = EndpointTypeBits::Disabled;
    bus.reset(&mut dev);

    assert_eq!(dev.descriptors[0].bank0.byte_count, 8);
    assert!(dev.endpoints[0].inten.rxstp);
    assert!(dev.endpoints[0].inten.trcpt0);
    assert!(dev.endpoints[0].inten.trfail0);
    assert!(dev.endpoints[0].inten.trcpt1);

    assert_eq!(dev.descriptors[1].bank0.byte_count, 0);
    assert_eq!(dev.endpoints[1].eptype0, EndpointTypeBits::Bulk);
    assert!(dev.endpoints[1].inten.trcpt0);
    assert!(!dev.endpoints[1].inten.trcpt1);
    assert!(dev.enabled);
}

#[test]
fn protocol_reset_and_flush_agree() {
    let mut a = device();
    let bus = control_bus(&a);
    bus.enable(&mut a);
    let mut b = a;
    bus.protocol_reset(&mut a);
    bus.flush_eps(&mut b, FlushConfigMode::ProtocolReset);
    assert_eq!(a.endpoints, b.endpoints);
    assert_eq!(a.descriptors, b.descriptors);
}

#[test]
fn full_flush_rewrites_endpoint_zero() {
    let mut dev = device();
    let bus = control_bus(&dev);
    bus.enable(&mut dev);
    dev.descriptors[0].bank0.byte_count = 8;
    bus.flush_eps(&mut dev, FlushConfigMode::Full);
    assert_eq!(dev.descriptors[0].bank0.byte_count, 0);
}

#[test]
fn suspend_and_resume_do_nothing() {
    let mut dev = device();
    let bus = control_bus(&dev);
    bus.enable(&mut dev);
    dev.intflag.suspend = true;
    dev.intflag.wakeup = true;
    let before = dev;
    bus.suspend(&mut dev);
    bus.resume(&mut dev);
    assert_eq!(dev.endpoints, before.endpoints);
    assert_eq!(dev.descriptors, before.descriptors);
    assert_eq!(dev.intflag, before.intflag);
    assert_eq!(dev.inten, before.inten);
    assert_eq!(dev.enabled, before.enabled);
    assert_eq!(dev.detached, before.detached);
}

#[test]
fn set_device_address_writes_address_and_enable() {
    let mut dev = device();
    let bus = UsbBus::new(&dev);
    bus.set_device_address(&mut dev, 42);
    assert_eq!(dev.dadd, 42);
    assert!(dev.adden);
    bus.set_device_address(&mut dev, 0x85);
    assert_eq!(dev.dadd, 5);
    assert!(dev.adden);
}

#[test]
fn sof_interrupt_can_be_switched() {
    let mut dev = device();
    let bus = UsbBus::new(&dev);
    dev.inten.eorst = true;
    bus.enable_sof_interrupt(&mut dev);
    assert!(dev.inten.sof);
    assert!(dev.inten.eorst);
    bus.disable_sof_interrupt(&mut dev);
    assert!(!dev.inten.sof);
    assert!(dev.inten.eorst);
    bus.sof_interrupt(&mut dev, true);
    assert!(dev.inten.sof);
}

#[test]
fn check_sof_interrupt_reports_and_clears() {
    let mut dev = device();
    let bus = UsbBus::new(&dev);
    assert!(!bus.check_sof_interrupt(&mut dev));
    dev.intflag.sof = true;
    dev.intflag.suspend = true;
    assert!(bus.check_sof_interrupt(&mut dev));
    assert!(!dev.intflag.sof);
    assert!(dev.intflag.suspend);
    assert!(!bus.check_sof_interrupt(&mut dev));
}

#[test]
fn software_reset_keeps_memory() {
    let mut dev = device();
    dev.enabled = true;
    dev.detached = false;
    dev.endpoints[3].status.bk1rdy = true;
    dev.ram[5] = 9;
    dev.descriptors[3].bank1.address = 77;
    dev.software_reset();
    assert!(!dev.enabled);
    assert!(dev.detached);
    assert!(!dev.endpoints[3].status.bk1rdy);
    assert_eq!(dev.ram[5], 9);
    assert_eq!(dev.descriptors[3].bank1.address, 77);
}

#[test]
fn enable_attaches_last() {
    let mut dev = device();
    let mut bus = control_bus(&dev);
    bus.alloc_ep(UsbDirection::In, None, EndpointType::Bulk, 40, 0).unwrap();
    dev.descriptors[1].bank1.byte_count = 3;
    bus.enable(&mut dev);
    // What the peripheral was set up as when the device went on the bus
    // is what it is set up as now: nothing was done after.
    assert!(!dev.detached);
    assert_eq!(dev.attached_with.endpoints, dev.endpoints);
    assert_eq!(dev.attached_with.descriptors, dev.descriptors);
    assert_eq!(dev.attached_with.enabled, dev.enabled);
    assert_eq!(dev.attached_with.inten, dev.inten);
    assert_eq!(dev.attached_with.intflag, dev.intflag);
    assert_eq!(dev.attached_with.descadd, TABLE);
    assert_eq!(dev.attached_with.padcal, dev.calibration);
    assert_eq!(dev.attached_with.mode, Mode::Device);
    assert_eq!(dev.attached_with.speed, Speed::Full);
    assert!(dev.attached_with.run_in_standby);
    assert_eq!(dev.attached_with.endpoints[1].eptype1, EndpointTypeBits::Bulk);
    assert_eq!(dev.attached_with.descriptors[1].bank1.byte_count, 0);
}

#[test]
fn endpoints_are_switched_on_with_their_descriptors_in_place() {
    let mut dev = device();
    let mut bus = control_bus(&dev);
    bus.alloc_ep(UsbDirection::Out, None, EndpointType::Bulk, 64, 0).unwrap();
    dev.descriptors[1].bank0.byte_count = 5;
    dev.descriptors[4].bank0.byte_count = 6;
    bus.enable(&mut dev);
    for idx in 0..8 {
        assert_eq!(dev.endpoints[idx].found, dev.descriptors[idx]);
    }
    assert_eq!(dev.endpoints[1].found.bank0.address, BASE + 16);
    assert_eq!(dev.endpoints[1].found.bank0.byte_count, 0);
    assert_eq!(dev.endpoints[4].found.bank0.byte_count, 6);
}

#[test]
fn flush_ep_switches_the_endpoint_on_with_the_new_descriptors() {
    let mut dev = device();
    let mut bus = UsbBus::new(&dev);
    bus.alloc_ep(UsbDirection::In, None, EndpointType::Bulk, 64, 0).unwrap();
    dev.descriptors[1].bank1.byte_count = 9;
    bus.flush_ep(&mut dev, 1);
    assert_eq!(dev.endpoints[1].found, dev.descriptors[1]);
    assert_eq!(dev.endpoints[1].found.bank1.address, BASE);
    assert_eq!(dev.endpoints[1].found.bank1.byte_count, 0);
    assert_eq!(dev.endpoints[2].found.bank1.address, 0);
}

#[test]
fn attach_records_the_configuration() {
    let mut dev = device();
    dev.enabled = true;
    dev.endpoints[2].eptype0 = EndpointTypeBits::Bulk;
    dev.attach();
    assert!(!dev.detached);
    assert!(dev.attached_with.enabled);
    assert_eq!(dev.attached_with.endpoints[2].eptype0, EndpointTypeBits::Bulk);
    dev.endpoints[2].eptype0 = EndpointTypeBits::Disabled;
    assert_eq!(dev.attached_with.endpoints[2].eptype0, EndpointTypeBits::Bulk);
}

#[test]
fn enable_switches_on_before_flags_and_endpoints() {
    let mut dev = device();
    let bus = control_bus(&dev);
    dev.intflag.sof = true;
    dev.descriptors[0].bank0.byte_count = 5;
    bus.enable(&mut dev);
    let then = dev.switched_on_with;
    // In place when the peripheral was switched on.
    assert!(!then.enabled);
    assert_eq!(then.descadd, TABLE);
    assert_eq!(then.padcal, dev.calibration);
    assert_eq!(then.dqos, 3);
    assert_eq!(then.cqos, 3);
    assert_eq!(then.mode, Mode::Device);
    assert_eq!(then.speed, Speed::Full);
    assert!(then.run_in_standby);
    // Done after.
    assert_eq!(then.inten, IntFlags::empty());
    assert_eq!(then.intflag, IntFlags::empty());
    for idx in 0..8 {
        assert_eq!(then.endpoints[idx].eptype0, EndpointTypeBits::Disabled);
        assert_eq!(then.endpoints[idx].inten, no_flags());
    }
    assert_eq!(then.descriptors[0].bank0.byte_count, 5);
    assert_eq!(dev.descriptors[0].bank0.byte_count, 0);
}

#[test]
fn switch_on_records_the_configuration() {
    let mut dev = device();
    dev.descadd = 77;
    dev.switch_on();
    assert!(dev.enabled);
    assert!(!dev.switched_on_with.enabled);
    assert_eq!(dev.switched_on_with.descadd, 77);
    dev.descadd = 78;
    assert_eq!(dev.switched_on_with.descadd, 77);
    assert!(dev.detached);
}
