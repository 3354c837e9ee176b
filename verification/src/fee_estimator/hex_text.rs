//! Hexadecimal text: what a transaction's `input` field holds.

use vstd::prelude::*;

verus! {

/// Whether `c` is one of `0-9`, `a-f` or `A-F`.
pub open spec fn is_hex_digit(c: char) -> bool {
    let n = c as int;
    48 <= n <= 57 || 65 <= n <= 70 || 97 <= n <= 102
}

/// The number from 0 to 15 that the hex digit `c` stands for.
pub open spec fn hex_digit_value(c: char) -> int {
    let n = c as int;
    if 48 <= n <= 57 {
        n - 48
    } else if 65 <= n <= 70 {
        n - 55
    } else {
        n - 87
    }
}

/// The lower-case hex digit for a number from 0 to 15.
pub open spec fn hex_digit(n: int) -> char {
    if n < 10 {
        (48 + n) as char
    } else {
        (87 + n) as char
    }
}

/// Whether `text` is an even number of hex digits and nothing else.
pub open spec fn is_hex_text(text: Seq<char>) -> bool {
    &&& text.len() % 2 == 0
    &&& forall|i: int| 0 <= i < text.len() ==> is_hex_digit(#[trigger] text[i])
}

/// The bytes that hex text stands for: each pair of digits is one byte, high
/// digit first.
pub open spec fn decoded_hex(text: Seq<char>) -> Seq<u8> {
    Seq::new(
        text.len() / 2,
        |i: int| (16 * hex_digit_value(text[2 * i]) + hex_digit_value(text[2 * i + 1])) as u8,
    )
}

/// The lower-case hex text of `bytes`: two digits for each byte, high digit
/// first.
pub open spec fn encoded_hex(bytes: Seq<u8>) -> Seq<char> {
    Seq::new(
        2 * bytes.len(),
        |i: int|
            if i % 2 == 0 {
                hex_digit(bytes[i / 2] as int / 16)
            } else {
                hex_digit(bytes[i / 2] as int % 16)
            },
    )
}

/// `hex::FromHexError`, why a text is not hex: carried through, never read.
#[verifier::external_type_specification]
#[verifier::external_body]
pub struct ExFromHexError(hex::FromHexError);

/// Decodes hex text into bytes.
///
/// Trusted: calls `hex::decode`, which fails on a text of odd length or one
/// that holds anything but the digits `0-9`, `a-f` and `A-F`, and otherwise
/// returns one byte for each pair of digits, the first digit being the high
/// half of the byte.
#[verifier::external_body]
pub(crate) fn decode_hex(text: &str) -> (r: Result<Vec<u8>, hex::FromHexError>)
    ensures
        r is Ok <==> is_hex_text(text@),
        r matches Ok(bytes) ==> bytes@ == decoded_hex(text@),
{
    hex::decode(text)
}

/// Decoding the hex text of any bytes gives those bytes back.
pub proof fn lemma_hex_round_trip(bytes: Seq<u8>)
    ensures
        is_hex_text(encoded_hex(bytes)),
        decoded_hex(encoded_hex(bytes)) == bytes,
{
    let text = encoded_hex(bytes);
    assert forall|i: int| 0 <= i < text.len() implies is_hex_digit(#[trigger] text[i]) by {
        let b = bytes[i / 2] as int;
        assert(0 <= b / 16 < 16 && 0 <= b % 16 < 16);
    }
    assert forall|k: int| 0 <= k < bytes.len() implies decoded_hex(text)[k] == bytes[k] by {
        let b = bytes[k] as int;
        assert(0 <= b / 16 < 16 && 0 <= b % 16 < 16);
        assert((2 * k) / 2 == k && (2 * k) % 2 == 0);
        assert((2 * k + 1) / 2 == k && (2 * k + 1) % 2 == 1);
        assert(text[2 * k] == hex_digit(b / 16));
        assert(text[2 * k + 1] == hex_digit(b % 16));
        assert(hex_digit_value(hex_digit(b / 16)) == b / 16);
        assert(hex_digit_value(hex_digit(b % 16)) == b % 16);
        assert(16 * (b / 16) + b % 16 == b);
    }
    assert(decoded_hex(text) =~= bytes);
}

} // verus!
