use lootbox::text::{decimal_string, hex_string};
use lootbox::{bytes_to_u64, get_random_item_id};

#[test]
fn bytes_to_u64_reads_big_endian() {
    assert_eq!(bytes_to_u64(&[0, 0, 0, 0, 0, 0, 0, 1]), 1);
    assert_eq!(bytes_to_u64(&[1, 0, 0, 0, 0, 0, 0, 0]), 0x0100_0000_0000_0000);
    assert_eq!(bytes_to_u64(&[1, 2, 3, 4, 5, 6, 7, 8]), 0x0102_0304_0506_0708);
    assert_eq!(bytes_to_u64(&[0xff; 8]), u64::MAX);
    assert_eq!(bytes_to_u64(&[0; 8]), 0);
}

#[test]
fn bytes_to_u64_ignores_what_follows_the_eighth_byte() {
    let mut bytes = [0u8; 32];
    bytes[7] = 9;
    bytes[8] = 0xff;
    bytes[31] = 0xff;
    assert_eq!(bytes_to_u64(&bytes), 9);
}

#[test]
fn bytes_to_u64_agrees_with_std() {
    let bytes = [0xf9, 0xe2, 0xea, 0xaa, 0x42, 0xd9, 0xfe, 0x9e];
    assert_eq!(bytes_to_u64(&bytes), u64::from_be_bytes(bytes));
    assert_eq!(bytes_to_u64(&bytes), 18006212277167586974);
}

// The expected indices follow from the SHA3-256 digests of the block times
// written in decimal: that of "0" starts with f9e2eaaa42d9fe9e, that of "1"
// with 67b176705b462066, that of "42" with 4e169ddf479c8cd9.
#[test]
fn random_item_id_hashes_the_decimal_block_time() {
    assert_eq!(get_random_item_id(0, 10), 4);
    assert_eq!(get_random_item_id(1, 10), 0);
    assert_eq!(get_random_item_id(42, 10), 9);
    assert_eq!(get_random_item_id(1_700_000_000_000, 3), 2);
    assert_eq!(get_random_item_id(u64::MAX, 10), 1);
    assert_eq!(get_random_item_id(0, u64::MAX), 18006212277167586974);
    assert_eq!(get_random_item_id(1, u64::MAX), 7471883481724100710);
}

#[test]
fn random_item_id_is_not_the_block_time_itself() {
    // 7 modulo 1000 would be 7; the digest of "7" gives 304.
    assert_eq!(get_random_item_id(7, 1000), 304);
    assert_ne!(get_random_item_id(7, 1000), 7);
}

#[test]
fn random_item_id_stays_below_max_items() {
    let mut now: u64 = 0;
    while now < 200 {
        let mut max_items: u64 = 1;
        while max_items < 12 {
            assert!(get_random_item_id(now, max_items) < max_items);
            max_items += 1;
        }
        now += 1;
    }
}

#[test]
fn random_item_id_with_one_item_is_zero() {
    assert_eq!(get_random_item_id(0, 1), 0);
    assert_eq!(get_random_item_id(123_456, 1), 0);
}

#[test]
fn random_item_id_repeats_within_one_block_time() {
    let first = get_random_item_id(1_000, 10);
    let second = get_random_item_id(1_000, 10);
    assert_eq!(first, 4);
    assert_eq!(first, second);
}

#[test]
fn decimal_string_agrees_with_std() {
    let numbers = [0u64, 1, 9, 10, 11, 99, 100, 101, 12_345, 1_700_000_000_000, u64::MAX - 1, u64::MAX];
    for n in numbers {
        assert_eq!(decimal_string(n), n.to_string());
    }
    assert_eq!(decimal_string(0), "0");
    assert_eq!(decimal_string(1_000), "1000");
    assert_eq!(decimal_string(u64::MAX), "18446744073709551615");
}

#[test]
fn hex_string_writes_two_lower_case_digits_for_each_byte() {
    assert_eq!(hex_string(&[]), "");
    assert_eq!(hex_string(&[0]), "00");
    assert_eq!(hex_string(&[0x0f, 0xf0]), "0ff0");
    assert_eq!(hex_string(&[0xff, 0xcc, 0xaa]), "ffccaa");
    assert_eq!(hex_string(b"Hello World"), "48656c6c6f20576f726c64");
    assert_eq!(hex_string(&[0x01, 0x23, 0x45, 0x67, 0x89, 0xab, 0xcd, 0xef]), "0123456789abcdef");
}
