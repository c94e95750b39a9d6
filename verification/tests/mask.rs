use atsamd_hal::usb::mask::{set_bit, test_bit};

#[test]
fn set_bit_sets_one_bit() {
    assert_eq!(set_bit(0, 0), 0b1);
    assert_eq!(set_bit(0, 3), 0b1000);
    assert_eq!(set_bit(0b1000, 3), 0b1000);
    assert_eq!(set_bit(0b0101, 1), 0b0111);
    assert_eq!(set_bit(0, 15), 0x8000);
}

#[test]
fn test_bit_reads_one_bit() {
    assert!(test_bit(0b1000, 3));
    assert!(!test_bit(0b1000, 2));
    assert!(test_bit(0x8000, 15));
    assert!(!test_bit(0, 0));
    for n in 0..16u16 {
        assert!(test_bit(set_bit(0, n), n));
        for m in 0..16u16 {
            assert_eq!(test_bit(set_bit(0, n), m), n == m);
        }
    }
}
