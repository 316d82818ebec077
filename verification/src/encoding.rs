//! Hexadecimal text for blob payloads, and the `0x` prefix of blob handles.

use vstd::prelude::*;

verus! {

/// The lowercase hexadecimal digit for a value below sixteen.
pub open spec fn hex_digit(n: int) -> char {
    if n < 10 {
        (48 + n) as char
    } else {
        (87 + n) as char
    }
}

/// The value of a hexadecimal digit of either case; `None` for any other character.
pub open spec fn hex_value(c: char) -> Option<int> {
    let code = c as int;
    if 48 <= code <= 57 {
        Some(code - 48)
    } else if 97 <= code <= 102 {
        Some(code - 87)
    } else if 65 <= code <= 70 {
        Some(code - 55)
    } else {
        None
    }
}

/// Two lowercase digits per byte, the high half first.
pub open spec fn hex_text(data: Seq<u8>) -> Seq<char> {
    Seq::new(
        2 * data.len(),
        |i: int|
            if i % 2 == 0 {
                hex_digit(data[i / 2] as int / 16)
            } else {
                hex_digit(data[i / 2] as int % 16)
            },
    )
}

/// Whether `text` is an even number of hexadecimal digits.
pub open spec fn is_hex_text(text: Seq<char>) -> bool {
    &&& text.len() % 2 == 0
    &&& forall|i: int| 0 <= i < text.len() ==> (#[trigger] hex_value(text[i])) is Some
}

/// The bytes that `text` spells, where it is an even number of hexadecimal digits.
pub open spec fn hex_bytes(text: Seq<char>) -> Option<Seq<u8>> {
    if is_hex_text(text) {
        Some(
            Seq::new(
                text.len() / 2,
                |i: int| (16 * hex_value(text[2 * i])->0 + hex_value(text[2 * i + 1])->0) as u8,
            ),
        )
    } else {
        None
    }
}

/// Calls `hex::encode`, which writes each byte as two digits out of
/// `0123456789abcdef`, the high half first.
#[verifier::external_body]
fn hex_encode(data: &[u8]) -> (text: String)
    ensures
        text@ == hex_text(data@),
{
    ::hex::encode(data)
}

/// Calls `hex::decode`, which fails on an odd number of bytes and on any byte
/// that is not a digit or a letter `a` to `f` of either case, and otherwise
/// joins each pair of digits into one byte. Which of the two failures it was
/// is dropped.
#[verifier::external_body]
fn hex_decode(text: &str) -> (bytes: Option<Vec<u8>>)
    ensures
        match bytes {
            Some(b) => hex_bytes(text@) == Some(b@),
            None => hex_bytes(text@) is None,
        },
{
    ::hex::decode(text).ok()
}

/// Decoding what was encoded gives the bytes back, whatever they are.
pub proof fn lemma_hex_round_trip(data: Seq<u8>)
    ensures
        hex_bytes(hex_text(data)) == Some(data),
{
    let text = hex_text(data);
    assert forall|i: int| 0 <= i < text.len() implies (#[trigger] hex_value(text[i])) is Some by {
        let b = data[i / 2] as int;
        assert(0 <= b / 16 < 16);
        assert(0 <= b % 16 < 16);
    }
    assert(is_hex_text(text));
    let back = hex_bytes(text)->0;
    assert(back.len() == data.len());
    assert forall|i: int| 0 <= i < data.len() implies back[i] == data[i] by {
        let b = data[i] as int;
        assert((2 * i) % 2 == 0);
        assert((2 * i + 1) % 2 == 1);
        assert((2 * i) / 2 == i);
        assert((2 * i + 1) / 2 == i);
        assert(0 <= b / 16 < 16);
        assert(0 <= b % 16 < 16);
        assert(hex_value(hex_digit(b / 16)) == Some(b / 16));
        assert(hex_value(hex_digit(b % 16)) == Some(b % 16));
        assert(16 * (b / 16) + b % 16 == b);
    }
    assert(back =~= data);
}

/// The lowercase hexadecimal text of `data`.
pub fn encode_hex(data: &[u8]) -> (text: String)
    ensures
        text@ == hex_text(data@),
        hex_bytes(text@) == Some(data@),
{
    proof {
        lemma_hex_round_trip(data@);
    }
    hex_encode(data)
}

/// The bytes that `text` spells, or `None` where it is not an even number of
/// hexadecimal digits.
pub fn decode_hex(text: &str) -> (bytes: Option<Vec<u8>>)
    ensures
        match bytes {
            Some(b) => hex_bytes(text@) == Some(b@),
            None => hex_bytes(text@) is None,
        },
{
    hex_decode(text)
}

} // verus!
