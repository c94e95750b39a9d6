use atsamd_hal::usb::bank::{Bank, DmaBuffer, InBank, OutBank, Packet, UsbReadBuffer};
use atsamd_hal::usb::device::{Device, DeviceDescBank, EpIntFlags, PadCalibration};
use atsamd_hal::usb::endpoints::EPConfig;
use atsamd_hal::usb::{EndpointType, EndpointTypeBits, UsbError};

const BASE: usize = 0x2000_0000;

fn device() -> Device {
    Device::new(BASE, 0x2000_0800, PadCalibration { transn: 0, transp: 0, trim: 0 })
}

fn in_bank(idx: usize) -> Bank<InBank> {
    Bank::new(idx, EPConfig::new(EndpointType::Bulk, 16, 10, BASE + 32))
}

fn out_bank(idx: usize) -> Bank<OutBank> {
    Bank::new(idx, EPConfig::new(EndpointType::Bulk, 16, 10, BASE + 64))
}

#[test]
fn handle_keeps_index_and_config() {
    let bank = in_bank(6);
    assert_eq!(bank.index(), 6);
    assert_eq!(bank.config().ep_type, EndpointTypeBits::Bulk);
    assert_eq!(bank.config().addr, BASE + 32);
}

#[test]
fn ready_bits_are_per_direction() {
    let mut dev = device();
    let inb = in_bank(2);
    let outb = out_bank(2);
    inb.set_ready(&mut dev, true);
    assert!(inb.is_ready(&dev));
    assert!(!outb.is_ready(&dev));
    assert!(dev.endpoints[2].status.bk1rdy);
    assert!(!dev.endpoints[2].status.bk0rdy);
    outb.set_ready(&mut dev, true);
    inb.set_ready(&mut dev, false);
    assert!(!inb.is_ready(&dev));
    assert!(outb.is_ready(&dev));
    assert!(!dev.endpoints[3].status.bk0rdy);
}

#[test]
fn transfer_complete_is_cleared_with_transfer_failed() {
    let mut dev = device();
    let inb = in_bank(1);
    let outb = out_bank(1);
    dev.endpoints[1].intflag = EpIntFlags {
        trcpt0: true,
        trcpt1: true,
        trfail0: true,
        trfail1: true,
        rxstp: true,
        stall0: true,
        stall1: true,
    };
    assert!(inb.is_transfer_complete(&dev));
    assert!(outb.is_transfer_complete(&dev));
    inb.clear_transfer_complete(&mut dev);
    assert!(!inb.is_transfer_complete(&dev));
    assert!(outb.is_transfer_complete(&dev));
    assert!(!dev.endpoints[1].intflag.trfail1);
    assert!(dev.endpoints[1].intflag.trfail0);
    outb.clear_transfer_complete(&mut dev);
    assert!(!outb.is_transfer_complete(&dev));
    assert!(!dev.endpoints[1].intflag.trfail0);
    assert!(dev.endpoints[1].intflag.rxstp);
    assert!(dev.endpoints[1].intflag.stall0);
    assert!(dev.endpoints[1].intflag.stall1);
}

#[test]
fn setup_flag_is_cleared_only_explicitly() {
    let mut dev = device();
    let outb = out_bank(0);
    assert!(!outb.received_setup_interrupt(&dev));
    dev.endpoints[0].intflag.rxstp = true;
    dev.endpoints[0].intflag.trcpt0 = true;
    assert!(outb.received_setup_interrupt(&dev));
    outb.clear_transfer_complete(&mut dev);
    assert!(outb.received_setup_interrupt(&dev));
    outb.clear_received_setup_interrupt(&mut dev);
    assert!(!outb.received_setup_interrupt(&dev));
}

#[test]
fn flush_config_writes_the_descriptor() {
    let mut dev = device();
    dev.descriptors[3].bank1.byte_count = 4;
    dev.descriptors[3].bank1.multi_packet_size = 4;
    in_bank(3).flush_config(&mut dev);
    assert_eq!(
        dev.descriptors[3].bank1,
        DeviceDescBank { address: BASE + 32, endpoint_size: 16, multi_packet_size: 0, byte_count: 0 }
    );
    assert_eq!(dev.descriptors[3].bank0.address, 0);
    out_bank(3).flush_config(&mut dev);
    assert_eq!(dev.descriptors[3].bank0.address, BASE + 64);
    assert_eq!(dev.descriptors[3].bank0.endpoint_size, 16);
}

#[test]
fn setup_ep_interrupts_unmasks_the_direction() {
    let mut dev = device();
    dev.endpoints[1].eptype1 = EndpointTypeBits::Bulk;
    in_bank(1).setup_ep_interrupts(&mut dev);
    let mut expected = EpIntFlags::empty();
    expected.trcpt1 = true;
    assert_eq!(dev.endpoints[1].inten, expected);
    out_bank(1).setup_ep_interrupts(&mut dev);
    expected.trcpt0 = true;
    expected.trfail0 = true;
    expected.rxstp = true;
    assert_eq!(dev.endpoints[1].inten, expected);
}

#[test]
fn bank_write_copies_and_counts() {
    let mut dev = device();
    let bank = in_bank(1);
    bank.flush_config(&mut dev);
    assert_eq!(bank.write(&mut dev, &[1, 2, 3]), Ok(3));
    assert_eq!(&dev.ram[32..36], &[1, 2, 3, 0]);
    assert_eq!(dev.descriptors[1].bank1.byte_count, 3);
    assert!(!dev.endpoints[1].status.bk1rdy);
    let long = [9u8; 20];
    assert_eq!(bank.write(&mut dev, &long), Ok(16));
    assert_eq!(dev.descriptors[1].bank1.byte_count, 16);
    assert!(dev.ram[32..48].iter().all(|b| *b == 9));
    assert_eq!(dev.ram[48], 0);
}

#[test]
fn bank_write_outside_the_packet_memory_records_the_length_only() {
    let mut dev = device();
    let bank = in_bank(1);
    let before = dev;
    assert_eq!(bank.pending(&dev, 1), Packet { address: 0, count: 1 });
    assert_eq!(bank.write(&mut dev, &[1]), Ok(1));
    assert_eq!(dev.ram, before.ram);
    assert_eq!(dev.descriptors[1].bank1.byte_count, 1);
    assert_eq!(dev.endpoints, before.endpoints);
    dev.descriptors[1].bank1.address = BASE + 2040;
    assert_eq!(bank.pending(&dev, 20), Packet { address: BASE + 2040, count: 16 });
    assert_eq!(bank.write(&mut dev, &[5; 16]), Ok(16));
    assert_eq!(dev.ram, before.ram);
    assert_eq!(dev.descriptors[1].bank1.byte_count, 16);
    assert_eq!(bank.write(&mut dev, &[5; 8]), Ok(8));
    assert_eq!(&dev.ram[2040..2048], &[5; 8]);
    assert_eq!(dev.ram[2039], 0);
}

#[test]
fn bank_read_outside_the_packet_memory_leaves_the_buffer() {
    let mut dev = device();
    let bank = out_bank(1);
    dev.descriptors[1].bank0.address = 0x3000_0000;
    dev.descriptors[1].bank0.byte_count = 4;
    assert_eq!(bank.pending(&dev), Packet { address: 0x3000_0000, count: 4 });
    let mut buf = [9u8; 6];
    assert_eq!(bank.read(&mut dev, &mut buf), Ok(4));
    assert_eq!(buf, [9u8; 6]);
    assert_eq!(dev.descriptors[1].bank0.byte_count, 0);
}

#[test]
fn ready_bits_hand_the_descriptor_to_the_peripheral() {
    let mut dev = device();
    let inb = in_bank(2);
    let outb = out_bank(2);
    dev.descriptors[2].bank1.byte_count = 7;
    dev.descriptors[2].bank0.byte_count = 9;
    inb.set_ready(&mut dev, false);
    outb.set_ready(&mut dev, true);
    assert_eq!(dev.endpoints[2].armed.bank1.byte_count, 0);
    assert_eq!(dev.endpoints[2].armed.bank0.byte_count, 0);
    inb.set_ready(&mut dev, true);
    assert_eq!(dev.endpoints[2].armed.bank1, dev.descriptors[2].bank1);
    assert_eq!(dev.endpoints[2].armed.bank0.byte_count, 0);
    outb.set_ready(&mut dev, false);
    assert_eq!(dev.endpoints[2].armed.bank0, dev.descriptors[2].bank0);
    inb.set_stall(&mut dev, true);
    dev.descriptors[2].bank1.byte_count = 1;
    outb.set_stall(&mut dev, false);
    assert_eq!(dev.endpoints[2].armed.bank1.byte_count, 7);
}

#[test]
fn bank_write_dma_truncates_the_count_to_sixteen_bits() {
    let mut dev = device();
    let bank = in_bank(1);
    let buf = DmaBuffer { address: 0x2000_8000, size: 0x2_0000 };
    assert_eq!(bank.write_dma(&mut dev, buf, 0x1_0005), Ok(()));
    assert_eq!(dev.descriptors[1].bank1.byte_count, 5);
    assert_eq!(dev.descriptors[1].bank1.address, 0x2000_8000);
    assert_eq!(
        bank.write_dma(&mut dev, DmaBuffer { address: 0x2000_8004, size: 16 }, 8),
        Err(UsbError::Unsupported)
    );
    assert_eq!(
        bank.write_dma(&mut dev, DmaBuffer { address: 0x2000_8020, size: 7 }, 8),
        Err(UsbError::BufferOverflow)
    );
    assert_eq!(dev.descriptors[1].bank1.address, 0x2000_8000);
}

#[test]
fn bank_read_copies_and_empties_the_descriptor() {
    let mut dev = device();
    let bank = out_bank(1);
    bank.flush_config(&mut dev);
    dev.ram[64] = 1;
    dev.ram[65] = 2;
    dev.descriptors[1].bank0.byte_count = 2;
    dev.descriptors[1].bank0.multi_packet_size = 2;
    dev.endpoints[1].status.bk0rdy = true;
    let mut buf = [0xffu8; 4];
    assert_eq!(bank.read(&mut dev, &mut buf), Ok(2));
    assert_eq!(buf, [1, 2, 0xff, 0xff]);
    assert_eq!(dev.descriptors[1].bank0.byte_count, 0);
    assert_eq!(dev.descriptors[1].bank0.multi_packet_size, 0);
    assert!(dev.endpoints[1].status.bk0rdy);
    assert_eq!(bank.can_read(&dev), Some(0));
}

#[test]
fn bank_read_into_short_buffer_changes_nothing() {
    let mut dev = device();
    let bank = out_bank(1);
    bank.flush_config(&mut dev);
    dev.descriptors[1].bank0.byte_count = 5;
    let mut buf = [0xffu8; 4];
    assert_eq!(bank.read(&mut dev, &mut buf), Err(UsbError::BufferOverflow));
    assert_eq!(buf, [0xff; 4]);
    assert_eq!(dev.descriptors[1].bank0.byte_count, 5);
    assert_eq!(bank.can_read(&dev), Some(5));
}

#[test]
fn bank_swap_read_dma_remembers_the_lent_size() {
    let mut dev = device();
    let mut bank = out_bank(1);
    bank.flush_config(&mut dev);
    dev.descriptors[1].bank0.byte_count = 12;
    let first = DmaBuffer { address: 0x2000_8000, size: 32 };
    assert_eq!(
        bank.swap_read_dma(&mut dev, first),
        Ok((UsbReadBuffer { pointer: BASE + 64, size: 0 }, 12))
    );
    dev.descriptors[1].bank0.byte_count = 30;
    let second = DmaBuffer { address: 0x2000_8020, size: 16 };
    assert_eq!(
        bank.swap_read_dma(&mut dev, second),
        Ok((UsbReadBuffer { pointer: 0x2000_8000, size: 32 }, 30))
    );
    assert_eq!(dev.descriptors[1].bank0.address, 0x2000_8020);
    assert_eq!(dev.descriptors[1].bank0.byte_count, 0);
    let small = DmaBuffer { address: 0x2000_8040, size: 15 };
    assert_eq!(bank.swap_read_dma(&mut dev, small), Err(UsbError::BufferOverflow));
    let unaligned = DmaBuffer { address: 0x2000_8041, size: 64 };
    assert_eq!(bank.swap_read_dma(&mut dev, unaligned), Err(UsbError::Unsupported));
    assert_eq!(dev.descriptors[1].bank0.address, 0x2000_8020);
}

#[test]
fn bank_stall_requests() {
    let mut dev = device();
    let inb = in_bank(5);
    let outb = out_bank(5);
    inb.set_stall(&mut dev, true);
    assert!(inb.is_stalled(&dev));
    assert!(!outb.is_stalled(&dev));
    outb.set_stall(&mut dev, true);
    inb.set_stall(&mut dev, false);
    assert!(!inb.is_stalled(&dev));
    assert!(outb.is_stalled(&dev));
}

#[test]
fn packet_memory_load_and_store() {
    let mut dev = device();
    assert!(dev.contains(BASE, 2048));
    assert!(!dev.contains(BASE, 2049));
    assert!(!dev.contains(BASE - 1, 1));
    assert!(dev.contains(BASE + 2048, 0));
    assert!(!dev.contains(BASE + 2049, 0));
    dev.store(BASE + 10, &[1, 2, 3, 4], 3);
    assert_eq!(&dev.ram[9..14], &[0, 1, 2, 3, 0]);
    let mut buf = [9u8; 5];
    dev.load(BASE + 11, &mut buf, 2);
    assert_eq!(buf, [2, 3, 9, 9, 9]);
}
