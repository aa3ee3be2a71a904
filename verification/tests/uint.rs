use ic_eth::uint::U256;

fn with_byte(index: usize, byte: u8) -> U256 {
    let mut bytes = [0u8; 32];
    bytes[index] = byte;
    U256 { bytes }
}

#[test]
fn from_u64_is_big_endian() {
    let n = U256::from_u64(0x0102_0304_0506_0708);
    let mut expected = [0u8; 32];
    expected[24..].copy_from_slice(&[1, 2, 3, 4, 5, 6, 7, 8]);
    assert_eq!(n.bytes, expected);
}

#[test]
fn from_u64_of_zero_and_of_the_maximum() {
    assert_eq!(U256::from_u64(0).bytes, [0u8; 32]);
    let mut expected = [0u8; 32];
    expected[24..].copy_from_slice(&[0xff; 8]);
    assert_eq!(U256::from_u64(u64::MAX).bytes, expected);
}

#[test]
fn a_byte_fits_eight_bits() {
    assert!(U256::from_u64(0).fits(8));
    assert!(U256::from_u64(255).fits(8));
    assert!(!U256::from_u64(256).fits(8));
}

#[test]
fn widths_are_multiples_of_eight_up_to_256() {
    let one = U256::from_u64(1);
    assert!(!one.fits(0));
    assert!(!one.fits(7));
    assert!(!one.fits(12));
    assert!(!one.fits(264));
    assert!(one.fits(8));
    assert!(one.fits(248));
    assert!(one.fits(256));
}

#[test]
fn every_number_fits_256_bits() {
    assert!(U256 { bytes: [0xff; 32] }.fits(256));
    assert!(!U256 { bytes: [0xff; 32] }.fits(248));
}

#[test]
fn the_limit_is_two_to_the_width() {
    // 2^64 is bytes[23] == 1
    assert!(U256::from_u64(u64::MAX).fits(64));
    assert!(!with_byte(23, 1).fits(64));
    assert!(with_byte(23, 1).fits(72));
    // 2^248 is bytes[0] == 1
    assert!(!with_byte(0, 1).fits(248));
    assert!(with_byte(1, 0xff).fits(248));
}
