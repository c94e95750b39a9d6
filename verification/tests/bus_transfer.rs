use atsamd_hal::usb::bank::{DmaBuffer, Packet, UsbReadBuffer};
use atsamd_hal::usb::device::{Device, PadCalibration};
use atsamd_hal::usb::{EndpointAddress, EndpointType, UsbBus, UsbDirection, UsbError};

const BASE: usize = 0x2000_0000;

fn device() -> Device {
    Device::new(BASE, 0x2000_0800, PadCalibration { transn: 5, transp: 29, trim: 3 })
}

/// A bus with an OUT and an IN bulk endpoint 1 of 64 bytes, enabled. The
/// OUT buffer lies at the base of the packet memory, the IN buffer after
/// it.
fn running() -> (UsbBus, Device, EndpointAddress, EndpointAddress) {
    let mut dev = device();
    let mut bus = UsbBus::new(&dev);
    let out = bus.alloc_ep(UsbDirection::Out, None, EndpointType::Bulk, 64, 0).unwrap();
    let inn = bus.alloc_ep(UsbDirection::In, None, EndpointType::Bulk, 64, 0).unwrap();
    bus.enable(&mut dev);
    (bus, dev, out, inn)
}

/// Plays the peripheral receiving `data` on OUT endpoint 1.
fn receive(dev: &mut Device, data: &[u8]) {
    for (i, b) in data.iter().enumerate() {
        dev.ram[i] = *b;
    }
    dev.descriptors[1].bank0.byte_count = data.len() as u16;
    dev.endpoints[1].status.bk0rdy = true;
    dev.endpoints[1].intflag.trcpt0 = true;
}

#[test]
fn read_end_to_end() {
    let (bus, mut dev, out, _) = running();
    assert_eq!(bus.endpoint_config(1, UsbDirection::Out).allocated_size, 64);
    let data = [1u8, 2, 3, 4, 5, 6, 7, 8, 9, 10];
    receive(&mut dev, &data);
    let mut buf = [0xaau8; 64];
    assert_eq!(bus.read(&mut dev, out, &mut buf), Ok(10));
    assert_eq!(&buf[..10], &data);
    assert!(buf[10..].iter().all(|b| *b == 0xaa));
    assert!(!dev.endpoints[1].status.bk0rdy);
    assert!(!dev.endpoints[1].intflag.trcpt0);
    assert_eq!(dev.descriptors[1].bank0.byte_count, 0);
    assert_eq!(dev.descriptors[1].bank0.multi_packet_size, 0);
    assert_eq!(dev.descriptors[1].bank0.address, BASE);
}

#[test]
fn read_with_empty_buffer_keeps_the_bank_ready() {
    let (bus, mut dev, out, _) = running();
    dev.endpoints[1].status.bk0rdy = true;
    dev.endpoints[1].intflag.trcpt0 = true;
    dev.endpoints[1].intflag.trfail0 = true;
    let mut empty: [u8; 0] = [];
    assert_eq!(bus.read(&mut dev, out, &mut empty), Ok(0));
    assert!(dev.endpoints[1].status.bk0rdy);
    assert!(!dev.endpoints[1].intflag.trcpt0);
    assert!(!dev.endpoints[1].intflag.trfail0);
}

#[test]
fn read_with_empty_buffer_loses_no_data() {
    let (bus, mut dev, out, _) = running();
    receive(&mut dev, &[7, 8, 9]);
    let mut empty: [u8; 0] = [];
    assert_eq!(bus.read(&mut dev, out, &mut empty), Err(UsbError::BufferOverflow));
    assert!(dev.endpoints[1].status.bk0rdy);
    assert!(!dev.endpoints[1].intflag.trcpt0);
    assert_eq!(dev.descriptors[1].bank0.byte_count, 3);
    let mut buf = [0u8; 8];
    assert_eq!(bus.read(&mut dev, out, &mut buf), Ok(3));
    assert_eq!(&buf[..3], &[7, 8, 9]);
    assert!(!dev.endpoints[1].status.bk0rdy);
}

#[test]
fn read_into_short_buffer_overflows_but_frees_the_bank() {
    let (bus, mut dev, out, _) = running();
    receive(&mut dev, &[1, 2, 3, 4, 5]);
    let mut buf = [0x55u8; 4];
    assert_eq!(bus.read(&mut dev, out, &mut buf), Err(UsbError::BufferOverflow));
    assert_eq!(buf, [0x55; 4]);
    assert_eq!(dev.descriptors[1].bank0.byte_count, 5);
    assert!(!dev.endpoints[1].status.bk0rdy);
    assert!(!dev.endpoints[1].intflag.trcpt0);
}

#[test]
fn read_exactly_fills_the_buffer() {
    let (bus, mut dev, out, _) = running();
    receive(&mut dev, &[9, 8, 7, 6]);
    let mut buf = [0u8; 4];
    assert_eq!(bus.read(&mut dev, out, &mut buf), Ok(4));
    assert_eq!(buf, [9, 8, 7, 6]);
}

#[test]
fn read_blocks_when_nothing_was_received() {
    let (bus, mut dev, out, _) = running();
    dev.descriptors[1].bank0.byte_count = 4;
    dev.endpoints[1].intflag.trcpt0 = true;
    let before = dev;
    let mut buf = [0u8; 8];
    assert_eq!(bus.read(&mut dev, out, &mut buf), Err(UsbError::WouldBlock));
    assert_eq!(dev.endpoints, before.endpoints);
    assert_eq!(dev.descriptors, before.descriptors);
}

#[test]
fn read_serves_a_setup_packet_and_clears_its_flag() {
    let (bus, mut dev, out, _) = running();
    let setup = [0x80u8, 6, 0, 1, 0, 0, 64, 0];
    for (i, b) in setup.iter().enumerate() {
        dev.ram[i] = *b;
    }
    dev.descriptors[1].bank0.byte_count = 8;
    dev.endpoints[1].intflag.rxstp = true;
    let mut buf = [0u8; 8];
    assert_eq!(bus.read(&mut dev, out, &mut buf), Ok(8));
    assert_eq!(buf, setup);
    assert!(!dev.endpoints[1].intflag.rxstp);
    assert!(!dev.endpoints[1].status.bk0rdy);
}

#[test]
fn read_rejects_wrong_and_unallocated_addresses() {
    let (bus, mut dev, _, inn) = running();
    receive(&mut dev, &[1]);
    let mut buf = [0u8; 8];
    assert_eq!(bus.read(&mut dev, inn, &mut buf), Err(UsbError::InvalidEndpoint));
    let free = EndpointAddress::from_parts(2, UsbDirection::Out);
    assert_eq!(bus.read(&mut dev, free, &mut buf), Err(UsbError::InvalidEndpoint));
    let far = EndpointAddress::from_parts(20, UsbDirection::Out);
    assert_eq!(bus.read(&mut dev, far, &mut buf), Err(UsbError::InvalidEndpoint));
    assert!(dev.endpoints[1].status.bk0rdy);
}

#[test]
fn read_of_a_packet_outside_the_packet_memory_leaves_the_copy_to_the_caller() {
    let (bus, mut dev, out, _) = running();
    receive(&mut dev, &[1, 2, 3]);
    dev.descriptors[1].bank0.address = 0x3000_0000;
    let mut buf = [0x77u8; 8];
    assert_eq!(
        bus.pending_read(&dev, out, buf.len()),
        Ok(Packet { address: 0x3000_0000, count: 3 })
    );
    assert!(!dev.contains(0x3000_0000, 3));
    assert_eq!(bus.read(&mut dev, out, &mut buf), Ok(3));
    assert_eq!(buf, [0x77u8; 8]);
    assert!(!dev.endpoints[1].status.bk0rdy);
    assert!(!dev.endpoints[1].intflag.trcpt0);
    assert_eq!(dev.descriptors[1].bank0.byte_count, 0);
}

#[test]
fn read_at_the_end_of_the_packet_memory() {
    let (bus, mut dev, out, _) = running();
    let mut buf = [0u8; 8];
    // A packet that runs past the end of the packet memory is not copied.
    receive(&mut dev, &[1, 2, 3]);
    dev.descriptors[1].bank0.address = BASE + 2047;
    assert_eq!(bus.read(&mut dev, out, &mut buf), Ok(3));
    assert_eq!(buf, [0u8; 8]);
    // One that ends with it is.
    dev.descriptors[1].bank0.address = BASE + 2045;
    dev.descriptors[1].bank0.byte_count = 3;
    dev.endpoints[1].status.bk0rdy = true;
    dev.ram[2045] = 11;
    dev.ram[2047] = 13;
    assert_eq!(bus.read(&mut dev, out, &mut buf), Ok(3));
    assert_eq!(&buf[..3], &[11, 0, 13]);
}

#[test]
fn read_from_a_lent_buffer_end_to_end() {
    let mut dev = device();
    let mut bus = UsbBus::new(&dev);
    let lent = DmaBuffer { address: 0x3000_0000, size: 64 };
    let out = bus.alloc_dma_out_endpoint(None, EndpointType::Bulk, 64, 0, lent).unwrap();
    bus.enable(&mut dev);
    dev.descriptors[1].bank0.byte_count = 10;
    dev.endpoints[1].status.bk0rdy = true;
    dev.endpoints[1].intflag.trcpt0 = true;
    assert_eq!(bus.can_read(&dev, out), Some(10));
    assert_eq!(
        bus.pending_read(&dev, out, 64),
        Ok(Packet { address: 0x3000_0000, count: 10 })
    );
    let mut buf = [0u8; 64];
    assert_eq!(bus.read(&mut dev, out, &mut buf), Ok(10));
    assert!(!dev.endpoints[1].status.bk0rdy);
    assert!(!dev.endpoints[1].intflag.trcpt0);
    assert_eq!(dev.descriptors[1].bank0.byte_count, 0);
    assert_eq!(dev.descriptors[1].bank0.address, 0x3000_0000);
}

#[test]
fn read_served_by_a_setup_packet_alone() {
    let (bus, mut dev, out, _) = running();
    dev.descriptors[1].bank0.byte_count = 8;
    dev.descriptors[1].bank0.address = 0x3000_0000;
    dev.endpoints[1].intflag.rxstp = true;
    let mut buf = [0u8; 8];
    assert_eq!(bus.read(&mut dev, out, &mut buf), Ok(8));
    assert!(!dev.endpoints[1].intflag.rxstp);
}

#[test]
fn pending_read_answers_as_read_does() {
    let (bus, mut dev, out, inn) = running();
    assert_eq!(bus.pending_read(&dev, out, 8), Err(UsbError::WouldBlock));
    assert_eq!(bus.pending_read(&dev, inn, 8), Err(UsbError::InvalidEndpoint));
    receive(&mut dev, &[1, 2, 3, 4, 5]);
    let before = dev;
    assert_eq!(bus.pending_read(&dev, out, 4), Err(UsbError::BufferOverflow));
    assert_eq!(bus.pending_read(&dev, out, 5), Ok(Packet { address: BASE, count: 5 }));
    assert_eq!(dev.endpoints, before.endpoints);
    assert_eq!(dev.descriptors, before.descriptors);
    let mut buf = [0u8; 5];
    assert_eq!(bus.read(&mut dev, out, &mut buf), Ok(5));
    assert_eq!(buf, [1, 2, 3, 4, 5]);
}

#[test]
fn read_frees_the_bank_after_the_descriptor_is_emptied() {
    let (bus, mut dev, out, _) = running();
    receive(&mut dev, &[1, 2, 3]);
    let mut buf = [0u8; 8];
    assert_eq!(bus.read(&mut dev, out, &mut buf), Ok(3));
    // The peripheral found the emptied descriptor when it got the bank.
    assert_eq!(dev.endpoints[1].armed.bank0, dev.descriptors[1].bank0);
    assert_eq!(dev.endpoints[1].armed.bank0.byte_count, 0);
}

#[test]
fn write_arms_the_bank_after_the_descriptor_is_written() {
    let (bus, mut dev, _, inn) = running();
    assert_eq!(dev.endpoints[1].armed.bank1.byte_count, 0);
    assert_eq!(bus.write(&mut dev, inn, &[1, 2, 3, 4]), Ok(4));
    // The peripheral found the packet's length when it got the bank.
    assert_eq!(dev.endpoints[1].armed.bank1, dev.descriptors[1].bank1);
    assert_eq!(dev.endpoints[1].armed.bank1.byte_count, 4);
    assert_eq!(dev.endpoints[1].armed.bank1.address, BASE + 64);
}

#[test]
fn write_after_a_lent_buffer_leaves_the_copy_to_the_caller() {
    let (bus, mut dev, _, inn) = running();
    let lent = DmaBuffer { address: 0x3000_0000, size: 64 };
    assert_eq!(bus.start_write_dma(&mut dev, inn, lent, 16), Ok(()));
    assert_eq!(dev.endpoints[1].armed.bank1.address, 0x3000_0000);
    assert_eq!(dev.endpoints[1].armed.bank1.byte_count, 16);
    dev.endpoints[1].status.bk1rdy = false;
    assert_eq!(
        bus.pending_write(&dev, inn, 5),
        Ok(Packet { address: 0x3000_0000, count: 5 })
    );
    assert_eq!(bus.write(&mut dev, inn, &[1, 2, 3, 4, 5]), Ok(5));
    assert!(dev.ram.iter().all(|b| *b == 0));
    assert_eq!(dev.descriptors[1].bank1.byte_count, 5);
    assert!(dev.endpoints[1].status.bk1rdy);
}

#[test]
fn pending_write_answers_as_write_does() {
    let (bus, mut dev, out, inn) = running();
    assert_eq!(bus.pending_write(&dev, out, 5), Err(UsbError::InvalidEndpoint));
    assert_eq!(bus.pending_write(&dev, inn, 5), Ok(Packet { address: BASE + 64, count: 5 }));
    assert_eq!(bus.pending_write(&dev, inn, 100), Ok(Packet { address: BASE + 64, count: 64 }));
    bus.write(&mut dev, inn, &[1]).unwrap();
    assert_eq!(bus.pending_write(&dev, inn, 5), Err(UsbError::WouldBlock));
}

#[test]
fn can_read_mirrors_read() {
    let (bus, mut dev, out, inn) = running();
    assert_eq!(bus.can_read(&dev, out), None);
    receive(&mut dev, &[1, 2, 3]);
    assert_eq!(bus.can_read(&dev, out), Some(3));
    assert_eq!(bus.can_read(&dev, inn), None);
    dev.endpoints[1].status.bk0rdy = false;
    assert_eq!(bus.can_read(&dev, out), None);
    dev.endpoints[1].intflag.rxstp = true;
    assert_eq!(bus.can_read(&dev, out), Some(3));
    assert_eq!(bus.can_read(&dev, EndpointAddress::from_parts(2, UsbDirection::Out)), None);
}

#[test]
fn write_copies_the_packet_and_arms_the_bank() {
    let (bus, mut dev, _, inn) = running();
    dev.endpoints[1].intflag.trcpt1 = true;
    dev.endpoints[1].intflag.trfail1 = true;
    dev.descriptors[1].bank1.multi_packet_size = 5;
    let data = [10u8, 20, 30, 40, 50];
    assert_eq!(bus.write(&mut dev, inn, &data), Ok(5));
    assert_eq!(&dev.ram[64..69], &data);
    assert_eq!(dev.ram[69], 0);
    assert_eq!(dev.ram[63], 0);
    assert_eq!(dev.descriptors[1].bank1.byte_count, 5);
    assert_eq!(dev.descriptors[1].bank1.multi_packet_size, 0);
    assert_eq!(dev.descriptors[1].bank1.address, BASE + 64);
    assert!(dev.endpoints[1].status.bk1rdy);
    assert!(!dev.endpoints[1].intflag.trcpt1);
    assert!(!dev.endpoints[1].intflag.trfail1);
}

#[test]
fn write_on_ready_bank_blocks_and_keeps_the_byte_count() {
    let (bus, mut dev, _, inn) = running();
    assert_eq!(bus.write(&mut dev, inn, &[1, 2, 3]), Ok(3));
    let before = dev;
    assert_eq!(bus.write(&mut dev, inn, &[4, 5, 6, 7]), Err(UsbError::WouldBlock));
    assert_eq!(dev.descriptors[1].bank1.byte_count, 3);
    assert_eq!(dev.descriptors, before.descriptors);
    assert_eq!(dev.endpoints, before.endpoints);
    assert_eq!(&dev.ram[64..68], &[1, 2, 3, 0]);
}

#[test]
fn write_cuts_a_long_packet_to_the_buffer() {
    let (bus, mut dev, _, inn) = running();
    let data = [7u8; 100];
    assert_eq!(bus.write(&mut dev, inn, &data), Ok(64));
    assert_eq!(dev.descriptors[1].bank1.byte_count, 64);
    assert!(dev.ram[64..128].iter().all(|b| *b == 7));
    assert_eq!(dev.ram[128], 0);
}

#[test]
fn write_of_an_empty_packet() {
    let (bus, mut dev, _, inn) = running();
    dev.descriptors[1].bank1.byte_count = 9;
    assert_eq!(bus.write(&mut dev, inn, &[]), Ok(0));
    assert_eq!(dev.descriptors[1].bank1.byte_count, 0);
    assert!(dev.endpoints[1].status.bk1rdy);
}

#[test]
fn write_rejects_wrong_and_unallocated_addresses() {
    let (bus, mut dev, out, _) = running();
    let before = dev;
    assert_eq!(bus.write(&mut dev, out, &[1]), Err(UsbError::InvalidEndpoint));
    let free = EndpointAddress::from_parts(2, UsbDirection::In);
    assert_eq!(bus.write(&mut dev, free, &[1]), Err(UsbError::InvalidEndpoint));
    assert_eq!(dev.endpoints, before.endpoints);
    assert_eq!(dev.ram, before.ram);
}

#[test]
fn write_before_the_descriptor_is_flushed_goes_to_the_descriptors_address() {
    let mut dev = device();
    let mut bus = UsbBus::new(&dev);
    let inn = bus.alloc_ep(UsbDirection::In, None, EndpointType::Bulk, 64, 0).unwrap();
    assert_eq!(bus.pending_write(&dev, inn, 2), Ok(Packet { address: 0, count: 2 }));
    assert_eq!(bus.write(&mut dev, inn, &[1, 2]), Ok(2));
    assert!(dev.ram.iter().all(|b| *b == 0));
    assert_eq!(dev.descriptors[1].bank1.byte_count, 2);
    assert!(dev.endpoints[1].status.bk1rdy);
}

#[test]
fn can_write_mirrors_write() {
    let (bus, mut dev, out, inn) = running();
    assert!(bus.can_write(&dev, inn));
    assert!(!bus.can_write(&dev, out));
    assert!(!bus.can_write(&dev, EndpointAddress::from_parts(2, UsbDirection::In)));
    bus.write(&mut dev, inn, &[1]).unwrap();
    assert!(!bus.can_write(&dev, inn));
    dev.endpoints[1].status.bk1rdy = false;
    assert!(bus.can_write(&dev, inn));
}

#[test]
fn start_write_dma_installs_the_buffer() {
    let (bus, mut dev, _, inn) = running();
    dev.endpoints[1].intflag.trcpt1 = true;
    let buf = DmaBuffer { address: 0x2000_4020, size: 256 };
    assert_eq!(bus.start_write_dma(&mut dev, inn, buf, 200), Ok(()));
    assert_eq!(dev.descriptors[1].bank1.address, 0x2000_4020);
    assert_eq!(dev.descriptors[1].bank1.byte_count, 200);
    assert_eq!(dev.descriptors[1].bank1.multi_packet_size, 0);
    assert_eq!(dev.descriptors[1].bank1.endpoint_size, 64);
    assert!(dev.endpoints[1].status.bk1rdy);
    assert!(!dev.endpoints[1].intflag.trcpt1);
    assert!(dev.ram.iter().all(|b| *b == 0));
}

#[test]
fn start_write_dma_checks_alignment_and_capacity() {
    let (bus, mut dev, out, inn) = running();
    let before = dev;
    let unaligned = DmaBuffer { address: 0x2000_4010, size: 256 };
    assert_eq!(bus.start_write_dma(&mut dev, inn, unaligned, 8), Err(UsbError::Unsupported));
    let small = DmaBuffer { address: 0x2000_4020, size: 7 };
    assert_eq!(bus.start_write_dma(&mut dev, inn, small, 8), Err(UsbError::BufferOverflow));
    let both = DmaBuffer { address: 0x2000_4001, size: 7 };
    assert_eq!(bus.start_write_dma(&mut dev, inn, both, 8), Err(UsbError::Unsupported));
    let good = DmaBuffer { address: 0x2000_4020, size: 8 };
    assert_eq!(bus.start_write_dma(&mut dev, out, good, 8), Err(UsbError::InvalidEndpoint));
    assert_eq!(dev.descriptors, before.descriptors);
    assert_eq!(dev.endpoints, before.endpoints);
    assert_eq!(bus.start_write_dma(&mut dev, inn, good, 8), Ok(()));
    assert_eq!(bus.start_write_dma(&mut dev, inn, good, 8), Err(UsbError::WouldBlock));
}

#[test]
fn swap_read_dma_gives_back_the_filled_buffer() {
    let mut dev = device();
    let mut bus = UsbBus::new(&dev);
    let first = DmaBuffer { address: 0x2000_4000, size: 64 };
    let out = bus.alloc_dma_out_endpoint(None, EndpointType::Bulk, 64, 0, first).unwrap();
    bus.enable(&mut dev);
    assert_eq!(dev.descriptors[1].bank0.address, 0x2000_4000);
    dev.descriptors[1].bank0.byte_count = 48;
    dev.endpoints[1].status.bk0rdy = true;
    dev.endpoints[1].intflag.trcpt0 = true;
    let second = DmaBuffer { address: 0x2000_4040, size: 64 };
    assert_eq!(
        bus.swap_read_dma(&mut dev, out, second),
        Ok((UsbReadBuffer { pointer: 0x2000_4000, size: 0 }, 48))
    );
    assert_eq!(dev.descriptors[1].bank0.address, 0x2000_4040);
    assert_eq!(dev.descriptors[1].bank0.byte_count, 0);
    assert!(!dev.endpoints[1].status.bk0rdy);
    assert!(!dev.endpoints[1].intflag.trcpt0);
}

#[test]
fn swap_read_dma_checks_state_alignment_and_capacity() {
    let (bus, mut dev, out, inn) = running();
    let good = DmaBuffer { address: 0x2000_4040, size: 64 };
    assert_eq!(bus.swap_read_dma(&mut dev, out, good), Err(UsbError::WouldBlock));
    assert_eq!(bus.swap_read_dma(&mut dev, inn, good), Err(UsbError::InvalidEndpoint));
    dev.endpoints[1].intflag.rxstp = true;
    let before = dev;
    let unaligned = DmaBuffer { address: 0x2000_4048, size: 64 };
    assert_eq!(bus.swap_read_dma(&mut dev, out, unaligned), Err(UsbError::Unsupported));
    let small = DmaBuffer { address: 0x2000_4040, size: 63 };
    assert_eq!(bus.swap_read_dma(&mut dev, out, small), Err(UsbError::BufferOverflow));
    assert_eq!(dev.descriptors, before.descriptors);
    assert_eq!(dev.endpoints, before.endpoints);
    assert!(bus.swap_read_dma(&mut dev, out, good).is_ok());
    assert!(!dev.endpoints[1].intflag.rxstp);
}

#[test]
fn stall_requests_are_per_direction() {
    let (bus, mut dev, out, inn) = running();
    assert!(!bus.is_stalled(&dev, out));
    assert!(!bus.is_stalled(&dev, inn));
    bus.set_stalled(&mut dev, inn, true);
    assert!(bus.is_stalled(&dev, inn));
    assert!(!bus.is_stalled(&dev, out));
    assert!(dev.endpoints[1].status.stallrq1);
    assert!(!dev.endpoints[1].status.stallrq0);
    bus.set_stall(&mut dev, out, true);
    assert!(bus.is_stalled(&dev, out));
    bus.set_stalled(&mut dev, inn, false);
    assert!(!bus.is_stalled(&dev, inn));
    assert!(bus.is_stalled(&dev, out));
}

#[test]
fn stall_of_an_unallocated_endpoint_does_nothing() {
    let (bus, mut dev, _, _) = running();
    let free = EndpointAddress::from_parts(4, UsbDirection::In);
    let before = dev;
    bus.set_stalled(&mut dev, free, true);
    assert_eq!(dev.endpoints, before.endpoints);
    assert!(!bus.is_stalled(&dev, free));
    dev.endpoints[4].status.stallrq1 = true;
    assert!(!bus.is_stalled(&dev, free));
    assert!(!bus.is_stalled(&dev, EndpointAddress::from_parts(100, UsbDirection::Out)));
}
