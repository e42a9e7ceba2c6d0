use api_key_auth::text::{
    fold_byte, hex_digit_of, hex_encode, hex_u64, same_bytes, same_name_ignoring_case, same_text,
};

#[test]
fn hex_encode_writes_two_digits_for_each_byte() {
    assert_eq!(hex_encode(&[]), "");
    assert_eq!(hex_encode(&[0x00]), "00");
    assert_eq!(hex_encode(&[0x0f, 0xa0, 0xff]), "0fa0ff");
    assert_eq!(hex_encode(&[0x12, 0x34, 0x56, 0x78, 0x9a, 0xbc, 0xde, 0xf0]), "123456789abcdef0");
}

#[test]
fn hex_u64_has_no_leading_zeros() {
    assert_eq!(hex_u64(0), "0");
    assert_eq!(hex_u64(9), "9");
    assert_eq!(hex_u64(10), "a");
    assert_eq!(hex_u64(15), "f");
    assert_eq!(hex_u64(16), "10");
    assert_eq!(hex_u64(255), "ff");
    assert_eq!(hex_u64(0x1234_5678_9abc_def0), "123456789abcdef0");
    assert_eq!(hex_u64(u64::MAX), "ffffffffffffffff");
}

#[test]
fn hex_u64_agrees_with_the_standard_formatting() {
    let samples: [u64; 6] = [1, 17, 4096, 65_535, 1 << 40, (1 << 63) + 7];
    for value in samples {
        assert_eq!(hex_u64(value), format!("{:x}", value));
    }
}

#[test]
fn hex_digit_of_covers_all_sixteen_values() {
    let digits: Vec<char> = (0u8..16).map(hex_digit_of).collect();
    assert_eq!(digits.iter().collect::<String>(), "0123456789abcdef");
}

#[test]
fn same_bytes_compares_contents() {
    assert!(same_bytes(b"", b""));
    assert!(same_bytes(b"abc", b"abc"));
    assert!(!same_bytes(b"abc", b"abd"));
    assert!(!same_bytes(b"xbc", b"abc"));
    assert!(!same_bytes(b"abc", b"abcd"));
    assert!(!same_bytes(b"abc", b""));
}

#[test]
fn same_text_compares_characters() {
    assert!(same_text("", ""));
    assert!(same_text("nonce", "nonce"));
    assert!(same_text("na\u{ef}ve", "na\u{ef}ve"));
    assert!(!same_text("nonce", "Nonce"));
    assert!(!same_text("a", "ab"));
}

#[test]
fn names_match_without_regard_to_ascii_case() {
    assert!(same_name_ignoring_case("X-Api-Key", "x-api-key"));
    assert!(same_name_ignoring_case("accesskeyid", "AccessKeyId"));
    assert!(same_name_ignoring_case("", ""));
    assert!(!same_name_ignoring_case("x-api-key", "x-api-kez"));
    assert!(!same_name_ignoring_case("x-api-key", "x-api-key2"));
    assert!(!same_name_ignoring_case("[", "{"));
    assert!(!same_name_ignoring_case("@", "`"));
}

#[test]
fn fold_byte_lowers_ascii_letters_only() {
    assert_eq!(fold_byte(b'A'), b'a');
    assert_eq!(fold_byte(b'Z'), b'z');
    assert_eq!(fold_byte(b'a'), b'a');
    assert_eq!(fold_byte(b'@'), b'@');
    assert_eq!(fold_byte(b'['), b'[');
    assert_eq!(fold_byte(0xc4), 0xc4);
}
