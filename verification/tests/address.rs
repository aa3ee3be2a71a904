use ic_eth::address::{preprocess_address, EthAddress};

#[test]
fn prefix_is_removed() {
    assert_eq!(preprocess_address("0xAbC123"), "AbC123");
}

#[test]
fn text_without_prefix_is_unchanged() {
    assert_eq!(preprocess_address("AbC123"), "AbC123");
}

#[test]
fn second_pass_changes_nothing() {
    let once = preprocess_address("0xAbC123");
    assert_eq!(preprocess_address(once), once);
}

#[test]
fn only_one_prefix_is_removed() {
    assert_eq!(preprocess_address("0x0xAb"), "0xAb");
}

#[test]
fn upper_case_prefix_stays() {
    assert_eq!(preprocess_address("0XAb"), "0XAb");
}

#[test]
fn short_and_empty_text_is_unchanged() {
    assert_eq!(preprocess_address(""), "");
    assert_eq!(preprocess_address("0"), "0");
    assert_eq!(preprocess_address("0x"), "");
}

#[test]
fn text_that_is_not_ascii_is_unchanged() {
    assert_eq!(preprocess_address("é0x12"), "é0x12");
    assert_eq!(preprocess_address("0xé"), "é");
}

#[test]
fn address_from_forty_digits() {
    let a = EthAddress::from_hex("00112233445566778899aAbBcCdDeEfF01234567").unwrap();
    assert_eq!(
        a.bytes,
        [
            0x00, 0x11, 0x22, 0x33, 0x44, 0x55, 0x66, 0x77, 0x88, 0x99, 0xaa, 0xbb, 0xcc, 0xdd,
            0xee, 0xff, 0x01, 0x23, 0x45, 0x67
        ]
    );
}

#[test]
fn address_wants_exactly_forty_hex_digits() {
    assert_eq!(EthAddress::from_hex(""), None);
    assert_eq!(EthAddress::from_hex("0x00112233445566778899aabbccddeeff01234567"), None);
    assert_eq!(EthAddress::from_hex("00112233445566778899aabbccddeeff0123456"), None);
    assert_eq!(EthAddress::from_hex("00112233445566778899aabbccddeeff012345678"), None);
    assert_eq!(EthAddress::from_hex("00112233445566778899aabbccddeeff0123456g"), None);
    assert_eq!(EthAddress::from_hex("00112233445566778899aabbccddeeff0123456 "), None);
}

#[test]
fn address_is_written_in_lower_case() {
    let a = EthAddress::from_hex("00112233445566778899AABBCCDDEEFF01234567").unwrap();
    assert_eq!(a.to_hex(), "00112233445566778899aabbccddeeff01234567");
}

#[test]
fn addresses_compare_by_their_bytes() {
    let lower = EthAddress::from_hex("00112233445566778899aabbccddeeff01234567").unwrap();
    let upper = EthAddress::from_hex("00112233445566778899AABBCCDDEEFF01234567").unwrap();
    let other = EthAddress::from_hex("00112233445566778899aabbccddeeff01234568").unwrap();
    assert!(lower.same(&upper));
    assert!(!lower.same(&other));
}
