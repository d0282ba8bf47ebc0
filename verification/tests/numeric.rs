use vault_cli::numeric::{Address, TxHash, U256};

fn amount(text: &str) -> U256 {
    U256::from_dec_str(text).unwrap()
}

#[test]
fn address_reads_with_and_without_prefix() {
    let plain = Address::from_text("00112233445566778899aabbccddeeff00112233").unwrap();
    let prefixed = Address::from_text("0x00112233445566778899AABBCCDDEEFF00112233").unwrap();
    assert_eq!(plain, prefixed);
    assert_eq!(
        plain.bytes,
        [0x00, 0x11, 0x22, 0x33, 0x44, 0x55, 0x66, 0x77, 0x88, 0x99, 0xaa, 0xbb, 0xcc, 0xdd, 0xee, 0xff, 0x00, 0x11, 0x22, 0x33]
    );
}

#[test]
fn address_passes_over_white_space() {
    let spaced = Address::from_text("0x0011 2233\t4455\n6677 8899aabbccddeeff00112233 \r\n").unwrap();
    assert_eq!(spaced, Address::from_text("0x00112233445566778899aabbccddeeff00112233").unwrap());
}

#[test]
fn address_refuses_what_is_malformed() {
    assert_eq!(Address::from_text(""), None);
    assert_eq!(Address::from_text("0x"), None);
    assert_eq!(Address::from_text("0x00112233445566778899aabbccddeeff001122"), None);
    assert_eq!(Address::from_text("0x00112233445566778899aabbccddeeff0011223344"), None);
    assert_eq!(Address::from_text("0x00112233445566778899aabbccddeeff0011223"), None);
    assert_eq!(Address::from_text("0x00112233445566778899aabbccddeeff0011223g"), None);
    assert_eq!(Address::from_text("0X00112233445566778899aabbccddeeff00112233"), None);
    assert_eq!(Address::from_text(" 0x00112233445566778899aabbccddeeff00112233"), None);
    assert_eq!(Address::from_text("0x0x00112233445566778899aabbccddeeff00112233"), None);
    assert_eq!(Address::from_text("not an address"), None);
}

#[test]
fn address_text_is_prefix_and_lower_case_digits() {
    let address = Address::from_text("0x00112233445566778899AABBCCDDEEFF00112233").unwrap();
    assert_eq!(address.to_text(), "0x00112233445566778899aabbccddeeff00112233");
    assert_eq!(Address::zero().to_text(), "0x0000000000000000000000000000000000000000");
    assert_eq!(Address::zero().bytes, [0u8; 20]);
}

#[test]
fn address_text_matches_the_outside_debug_form() {
    let bytes = [0xabu8; 20];
    let ours = Address { bytes }.to_text();
    assert_eq!(ours, format!("{:?}", ethers::types::H160(bytes)));
}

#[test]
fn hash_reads_and_writes() {
    let text = "0x88df016429689c079f3b2f6ad39fa052532c56795b733da78a91ebe6a713944b";
    let hash = TxHash::from_text(text).unwrap();
    assert_eq!(hash.bytes[0], 0x88);
    assert_eq!(hash.bytes[31], 0x4b);
    assert_eq!(hash.to_text(), text);
    assert_eq!(hash.to_text(), format!("{:#x}", ethers::types::H256(hash.bytes)));
    assert_eq!(TxHash::from_text("0x88df"), None);
    assert_eq!(TxHash::from_text("zz"), None);
    assert_eq!(TxHash::from_text("0x00112233445566778899aabbccddeeff00112233"), None);
}

#[test]
fn amount_reads_decimal_digits() {
    assert_eq!(amount("0").bytes, [0u8; 32]);
    assert_eq!(amount("").bytes, [0u8; 32]);
    let mut expected = [0u8; 32];
    expected[31] = 1;
    assert_eq!(amount("1").bytes, expected);
    assert_eq!(amount("0001").bytes, expected);
    expected[30] = 1;
    expected[31] = 0;
    assert_eq!(amount("256").bytes, expected);
    let one_eth = amount("1000000000000000000");
    assert_eq!(&one_eth.bytes[24..], &[0x0d, 0xe0, 0xb6, 0xb3, 0xa7, 0x64, 0x00, 0x00]);
    assert_eq!(&one_eth.bytes[..24], &[0u8; 24]);
}

#[test]
fn amount_refuses_what_is_no_amount() {
    assert_eq!(U256::from_dec_str("-1"), None);
    assert_eq!(U256::from_dec_str("+1"), None);
    assert_eq!(U256::from_dec_str("1.5"), None);
    assert_eq!(U256::from_dec_str("0x10"), None);
    assert_eq!(U256::from_dec_str(" 1"), None);
    assert_eq!(U256::from_dec_str("1e18"), None);
    assert_eq!(U256::from_dec_str("\u{0661}"), None);
}

#[test]
fn amount_holds_up_to_256_bits() {
    let max = "115792089237316195423570985008687907853269984665640564039457584007913129639935";
    assert_eq!(amount(max).bytes, [0xffu8; 32]);
    let over = "115792089237316195423570985008687907853269984665640564039457584007913129639936";
    assert_eq!(U256::from_dec_str(over), None);
    assert_eq!(U256::from_dec_str(&"9".repeat(100)), None);
    assert_eq!(amount(max).to_dec_string(), max);
}

#[test]
fn amount_writes_decimal_and_hexadecimal() {
    assert_eq!(amount("0").to_dec_string(), "0");
    assert_eq!(amount("0").to_hex_string(), "0x0");
    assert_eq!(amount("21000").to_dec_string(), "21000");
    assert_eq!(amount("21000").to_hex_string(), "0x5208");
    assert_eq!(amount("20000000000").to_hex_string(), "0x4a817c800");
    assert_eq!(amount("1000000000000000000").to_hex_string(), "0xde0b6b3a7640000");
    assert_eq!(amount("0042").to_dec_string(), "42");
    assert_eq!(amount("255").to_hex_string(), "0xff");
}

#[test]
fn amount_converts_to_and_from_u64() {
    assert_eq!(U256::from_u64(0).bytes, [0u8; 32]);
    assert_eq!(U256::from_u64(21000), amount("21000"));
    assert_eq!(U256::from_u64(u64::MAX), amount("18446744073709551615"));
    assert_eq!(U256::from_u64(0x0102030405060708).bytes[24..], [1, 2, 3, 4, 5, 6, 7, 8]);
    assert_eq!(amount("21000").as_u64(), Some(21000));
    assert_eq!(amount("18446744073709551615").as_u64(), Some(u64::MAX));
    assert_eq!(amount("18446744073709551616").as_u64(), None);
    assert_eq!(U256 { bytes: [0xff; 32] }.as_u64(), None);
    assert_eq!(U256 { bytes: [0; 32] }.as_u64(), Some(0));
}

#[test]
fn amount_is_zero_only_for_zero() {
    assert!(amount("0").is_zero());
    assert!(!amount("1").is_zero());
    let mut high = [0u8; 32];
    high[0] = 1;
    assert!(!U256 { bytes: high }.is_zero());
}

#[test]
fn amount_divides_with_remainder() {
    let (q, r) = amount("1500000000000000000").div_rem(&amount("1000000000000000000")).unwrap();
    assert_eq!(q, amount("1"));
    assert_eq!(r, amount("500000000000000000"));
    let (q, r) = amount("7").div_rem(&amount("10")).unwrap();
    assert_eq!(q, amount("0"));
    assert_eq!(r, amount("7"));
    assert_eq!(amount("7").div_rem(&amount("0")), None);
}

#[test]
fn stored_hex_reads_back_what_was_written() {
    assert_eq!(U256::from_stored_hex("0x5208"), amount("21000"));
    assert_eq!(U256::from_stored_hex("5208"), amount("21000"));
    assert_eq!(U256::from_stored_hex("0x0x5208"), amount("21000"));
    assert_eq!(U256::from_stored_hex("0x0"), amount("0"));
    assert_eq!(U256::from_stored_hex("0x"), amount("0"));
    assert_eq!(U256::from_stored_hex(""), amount("0"));
    assert_eq!(U256::from_stored_hex("0xABC"), amount("2748"));
    assert_eq!(U256::from_stored_hex("0xde0b6b3a7640000"), amount("1000000000000000000"));
    assert_eq!(U256::from_stored_hex(&amount("123456789").to_hex_string()), amount("123456789"));
}

#[test]
fn stored_hex_that_does_not_read_counts_as_zero() {
    assert_eq!(U256::from_stored_hex("0xzz"), amount("0"));
    assert_eq!(U256::from_stored_hex("21000 wei"), amount("0"));
    assert_eq!(U256::from_stored_hex(&format!("0x{}", "f".repeat(65))), amount("0"));
    assert_eq!(U256::from_stored_hex(&format!("0x{}", "f".repeat(64))), U256 { bytes: [0xff; 32] });
}
