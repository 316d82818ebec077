use bitcoin_da_client::blob::MAX_BLOB_SIZE;
use bitcoin_da_client::encoding::{decode_hex, encode_hex};
use bitcoin_da_client::text::{contains, decimal, same, strip_hex_prefix, trim_trailing_slashes};

#[test]
fn encode_hex_writes_lowercase_pairs() {
    assert_eq!(encode_hex(&[1, 2, 3, 15, 16, 255]), "0102030f10ff");
    assert_eq!(encode_hex(b"Hello world!"), "48656c6c6f20776f726c6421");
    assert_eq!(encode_hex(&[]), "");
}

#[test]
fn decode_hex_reads_both_cases() {
    assert_eq!(decode_hex("f9b4ca"), Some(vec![0xf9, 0xb4, 0xca]));
    assert_eq!(decode_hex("F9B4CA"), Some(vec![0xf9, 0xb4, 0xca]));
    assert_eq!(decode_hex("f9B4Ca"), Some(vec![0xf9, 0xb4, 0xca]));
    assert_eq!(decode_hex(""), Some(vec![]));
}

#[test]
fn decode_hex_refuses_what_is_not_hex() {
    assert_eq!(decode_hex("123"), None);
    assert_eq!(decode_hex("foo"), None);
    assert_eq!(decode_hex("0x12"), None);
    assert_eq!(decode_hex("1g"), None);
    assert_eq!(decode_hex("é"), None);
    assert_eq!(decode_hex("ab "), None);
}

#[test]
fn hex_round_trip_gives_the_bytes_back() {
    let every_byte: Vec<u8> = (0..=255).collect();
    assert_eq!(decode_hex(&encode_hex(&every_byte)), Some(every_byte));
    assert_eq!(decode_hex(&encode_hex(&[])), Some(vec![]));
}

#[test]
fn hex_round_trip_at_the_size_limit() {
    let mut data = vec![0u8; MAX_BLOB_SIZE];
    for (i, byte) in data.iter_mut().enumerate() {
        *byte = (i % 251) as u8;
    }
    let text = encode_hex(&data);
    assert_eq!(text.len(), 2 * MAX_BLOB_SIZE);
    assert_eq!(decode_hex(&text), Some(data));
}

#[test]
fn strip_hex_prefix_strips_one_prefix() {
    assert_eq!(strip_hex_prefix("0xdeadbeef"), "deadbeef");
    assert_eq!(strip_hex_prefix("deadbeef"), "deadbeef");
    assert_eq!(strip_hex_prefix("0x"), "");
    assert_eq!(strip_hex_prefix("0"), "0");
    assert_eq!(strip_hex_prefix(""), "");
    assert_eq!(strip_hex_prefix("0Xab"), "0Xab");
    assert_eq!(strip_hex_prefix("x0ab"), "x0ab");
    assert_eq!(strip_hex_prefix("0xé"), "é");
}

#[test]
fn strip_hex_prefix_twice_is_once_unless_the_prefix_repeats() {
    for handle in ["0xdeadbeef", "deadbeef", "", "0x", "0"] {
        assert_eq!(strip_hex_prefix(strip_hex_prefix(handle)), strip_hex_prefix(handle));
    }
    assert_eq!(strip_hex_prefix("0x0xab"), "0xab");
    assert_eq!(strip_hex_prefix(strip_hex_prefix("0x0xab")), "ab");
}

#[test]
fn trim_trailing_slashes_strips_them_all() {
    assert_eq!(trim_trailing_slashes("http://node:8370/"), "http://node:8370");
    assert_eq!(trim_trailing_slashes("http://node:8370///"), "http://node:8370");
    assert_eq!(trim_trailing_slashes("http://node:8370"), "http://node:8370");
    assert_eq!(trim_trailing_slashes("///"), "");
    assert_eq!(trim_trailing_slashes(""), "");
    assert_eq!(trim_trailing_slashes("a/b"), "a/b");
}

#[test]
fn decimal_writes_plain_digits() {
    assert_eq!(decimal(0), "0");
    assert_eq!(decimal(7), "7");
    assert_eq!(decimal(10), "10");
    assert_eq!(decimal(404), "404");
    assert_eq!(decimal(2097152), "2097152");
    assert_eq!(decimal(u64::MAX), "18446744073709551615");
}

#[test]
fn contains_finds_a_run_of_characters() {
    assert!(contains("Wallet file verification failed.", "failed"));
    assert!(contains("failed", "failed"));
    assert!(contains("anything", ""));
    assert!(!contains("fail", "failed"));
    assert!(!contains("Failed", "failed"));
    assert!(!contains("", "x"));
}

#[test]
fn same_compares_texts() {
    assert!(same("getbalance", "getbalance"));
    assert!(same("", ""));
    assert!(!same("getbalance", "getbalanc"));
    assert!(!same("a", "A"));
}
