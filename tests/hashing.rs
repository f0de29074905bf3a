use mcserver::hashing::{
    parse_hex_string, to_hex_string, HashAlgorithm, HashWithAlgorithm, HexError, HexString,
};

fn hex(bytes: &[u8]) -> String {
    to_hex_string(bytes)
}

#[test]
fn hex_round_trip_of_lowercase_text() {
    let bytes = parse_hex_string("00ff10ab").unwrap();
    assert_eq!(bytes, vec![0x00, 0xff, 0x10, 0xab]);
    assert_eq!(to_hex_string(&bytes), "00ff10ab");
}

#[test]
fn hex_round_trip_of_bytes() {
    let bytes: Vec<u8> = (0u8..=255).collect();
    let text = to_hex_string(&bytes);
    assert_eq!(text.len(), 512);
    assert_eq!(parse_hex_string(&text).unwrap(), bytes);
}

#[test]
fn hex_uppercase_is_read_and_written_lowercase() {
    let bytes = parse_hex_string("ABcd").unwrap();
    assert_eq!(bytes, vec![0xab, 0xcd]);
    assert_eq!(to_hex_string(&bytes), "abcd");
}

#[test]
fn hex_empty_text_is_no_bytes() {
    assert_eq!(parse_hex_string("").unwrap(), Vec::<u8>::new());
    assert_eq!(to_hex_string(&[]), "");
}

#[test]
fn hex_odd_length_fails() {
    assert_eq!(parse_hex_string("abc"), Err(HexError::OddLength));
}

#[test]
fn hex_invalid_digit_fails_with_first_bad_character() {
    assert_eq!(parse_hex_string("0g1z"), Err(HexError::InvalidDigit('g')));
    assert_eq!(parse_hex_string("zz"), Err(HexError::InvalidDigit('z')));
}

#[test]
fn hash_sizes_and_names() {
    assert_eq!(HashAlgorithm::Sha1.hash_size(), 20);
    assert_eq!(HashAlgorithm::Sha256.hash_size(), 32);
    assert_eq!(HashAlgorithm::Sha512.hash_size(), 64);
    assert_eq!(HashAlgorithm::Sha1.name(), "sha1");
    assert_eq!(HashAlgorithm::Sha256.name(), "sha256");
    assert_eq!(HashAlgorithm::Sha512.name(), "sha512");
}

#[test]
fn sha1_known_digest() {
    assert_eq!(
        hex(&HashAlgorithm::Sha1.digest(b"abc")),
        "a9993e364706816aba3e25717850c26c9cd0d89d"
    );
}

#[test]
fn sha256_known_digest() {
    assert_eq!(
        hex(&HashAlgorithm::Sha256.digest(b"abc")),
        "ba7816bf8f01cfea414140de5dae2223b00361a396177a9cb410ff61f20015ad"
    );
}

#[test]
fn sha512_known_digest() {
    assert_eq!(
        hex(&HashAlgorithm::Sha512.digest(b"abc")),
        "ddaf35a193617abacc417349ae20413112e6fa4e89a97ea20a9eeee64b55d39a2192992a274fc1a836ba3c23a3feebbd454d4423643ce80e2a9ac94fa54ca49f"
    );
}

#[test]
fn digest_matches_only_the_right_digest() {
    let d = HashAlgorithm::Sha1.digest(b"abc");
    assert!(HashAlgorithm::Sha1.matches(b"abc", &d));
    assert!(!HashAlgorithm::Sha1.matches(b"abd", &d));
    assert!(!HashAlgorithm::Sha256.matches(b"abc", &d));
}

#[test]
fn hash_with_algorithm_from_hex() {
    let h = HashWithAlgorithm::from_hex(
        HashAlgorithm::Sha1,
        "a9993e364706816aba3e25717850c26c9cd0d89d",
    )
    .unwrap();
    assert_eq!(h.algorithm, HashAlgorithm::Sha1);
    assert_eq!(h.hash, HashAlgorithm::Sha1.digest(b"abc"));
    assert_eq!(h.hex(), "a9993e364706816aba3e25717850c26c9cd0d89d");
}

#[test]
fn hash_with_algorithm_wrong_length() {
    let e = HashWithAlgorithm::from_hex(HashAlgorithm::Sha1, "abcd").unwrap_err();
    assert_eq!(e, HexError::WrongLength { found: 4, expected: 40 });
}

#[test]
fn hash_with_algorithm_bad_digit() {
    let text = "x".repeat(64);
    let e = HashWithAlgorithm::from_hex(HashAlgorithm::Sha256, &text).unwrap_err();
    assert_eq!(e, HexError::InvalidDigit('x'));
}

#[test]
fn hash_of_data() {
    let h = HashWithAlgorithm::of_data(HashAlgorithm::Sha256, b"abc");
    assert_eq!(
        h.hex(),
        "ba7816bf8f01cfea414140de5dae2223b00361a396177a9cb410ff61f20015ad"
    );
}

#[test]
fn hex_string_fixed_size() {
    let s = HexString::<4>::parse("deadBEEF").unwrap();
    assert_eq!(s.inner, [0xde, 0xad, 0xbe, 0xef]);
    assert_eq!(s.to_hex(), "deadbeef");
    assert_eq!(
        HexString::<4>::parse("dead").unwrap_err(),
        HexError::WrongLength { found: 4, expected: 8 }
    );
}
