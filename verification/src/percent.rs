//! Percent encoding of URI components.
//!
//! The encoder and decoder come from the `percent_encoding` crate. The lemmas here
//! relate the two, so that an encoded text is known to decode to itself.

use percent_encoding::{percent_decode_str, utf8_percent_encode, NON_ALPHANUMERIC};
use vstd::prelude::*;
use vstd::utf8::*;

verus! {

/// An ASCII letter or digit.
pub open spec fn is_alphanumeric_byte(byte: u8) -> bool {
    0x30 <= byte <= 0x39 || 0x41 <= byte <= 0x5a || 0x61 <= byte <= 0x7a
}

/// A hexadecimal digit of either case.
pub open spec fn is_hex_byte(byte: u8) -> bool {
    0x30 <= byte <= 0x39 || 0x41 <= byte <= 0x46 || 0x61 <= byte <= 0x66
}

/// The value of a hexadecimal digit.
pub open spec fn hex_value(byte: u8) -> int
    recommends
        is_hex_byte(byte),
{
    if byte <= 0x39 {
        byte - 0x30
    } else if byte <= 0x46 {
        byte - 0x37
    } else {
        byte - 0x57
    }
}

/// The upper case hexadecimal digit of a value below sixteen.
pub open spec fn hex_digit(value: int) -> char
    recommends
        0 <= value < 16,
{
    if value < 10 {
        (0x30 + value) as char
    } else {
        (0x37 + value) as char
    }
}

/// The spelling of one byte: letters and digits stand for themselves, every other
/// byte is a percent sign and two upper case hexadecimal digits.
pub open spec fn escaped_byte(byte: u8) -> Seq<char> {
    if is_alphanumeric_byte(byte) {
        seq![byte as char]
    } else {
        seq!['%', hex_digit(byte as int / 16), hex_digit(byte as int % 16)]
    }
}

/// The spellings of all bytes, one after the other.
pub open spec fn percent_encoded(bytes: Seq<u8>) -> Seq<char>
    decreases bytes.len(),
{
    if bytes.len() == 0 {
        Seq::empty()
    } else {
        escaped_byte(bytes[0]) + percent_encoded(bytes.skip(1))
    }
}

/// Replaces each percent sign that two hexadecimal digits follow by the byte that
/// they spell. All other bytes are kept.
pub open spec fn percent_decoded(bytes: Seq<u8>) -> Seq<u8>
    decreases bytes.len(),
{
    if bytes.len() == 0 {
        Seq::empty()
    } else if bytes.len() >= 3 && bytes[0] == 0x25 && is_hex_byte(bytes[1]) && is_hex_byte(
        bytes[2],
    ) {
        seq![(hex_value(bytes[1]) * 16 + hex_value(bytes[2])) as u8] + percent_decoded(
            bytes.skip(3),
        )
    } else {
        seq![bytes[0]] + percent_decoded(bytes.skip(1))
    }
}

/// `percent_encoding::utf8_percent_encode` with the set `NON_ALPHANUMERIC`: every
/// UTF-8 byte of the text that is no ASCII letter or digit is escaped.
#[verifier::external_body]
pub(crate) fn encode_non_alphanumeric(text: &str) -> (encoded: String)
    ensures
        encoded@ == percent_encoded(encode_utf8(text@)),
{
    utf8_percent_encode(text, NON_ALPHANUMERIC).to_string()
}

/// `percent_encoding::percent_decode_str` followed by `decode_utf8`: the UTF-8
/// bytes of the text are percent decoded, and the outcome is read as UTF-8 again.
/// There is no result where the decoded bytes are not valid UTF-8.
#[verifier::external_body]
pub(crate) fn decode_text(text: &str) -> (decoded: Option<String>)
    ensures
        decoded is Some <==> valid_utf8(percent_decoded(encode_utf8(text@))),
        decoded matches Some(plain) ==> plain@ == decode_utf8(
            percent_decoded(encode_utf8(text@)),
        ),
{
    percent_decode_str(text).decode_utf8().ok().map(|plain| plain.into_owned())
}

/// Encoding as UTF-8 distributes over concatenation.
pub proof fn lemma_encode_utf8_concat(left: Seq<char>, right: Seq<char>)
    ensures
        encode_utf8(left + right) == encode_utf8(left) + encode_utf8(right),
    decreases left.len(),
{
    if left.len() == 0 {
        assert(left + right =~= right);
        assert(encode_utf8(left) + encode_utf8(right) =~= encode_utf8(right));
    } else {
        lemma_encode_utf8_concat(left.drop_first(), right);
        assert((left + right).drop_first() =~= left.drop_first() + right);
        assert(encode_utf8(left + right) =~= encode_utf8(left) + encode_utf8(right));
    }
}

/// The two digits of an escape spell the byte that was escaped.
pub proof fn lemma_hex_digits(byte: u8)
    ensures
        is_hex_byte(hex_digit(byte as int / 16) as u8),
        is_hex_byte(hex_digit(byte as int % 16) as u8),
        hex_digit(byte as int / 16) as u32 <= 0x46,
        hex_digit(byte as int % 16) as u32 <= 0x46,
        hex_value(hex_digit(byte as int / 16) as u8) * 16 + hex_value(
            hex_digit(byte as int % 16) as u8,
        ) == byte,
{
    let high = byte as int / 16;
    let low = byte as int % 16;
    assert(0 <= high < 16 && 0 <= low < 16);
    assert(high * 16 + low == byte);
}

/// Decoding what was encoded gives back the bytes, whatever follows them.
pub proof fn lemma_decode_encoded(bytes: Seq<u8>, rest: Seq<u8>)
    ensures
        percent_decoded(encode_utf8(percent_encoded(bytes)) + rest) == bytes + percent_decoded(
            rest,
        ),
    decreases bytes.len(),
{
    if bytes.len() == 0 {
        assert(encode_utf8(percent_encoded(bytes)) + rest =~= rest);
        assert(bytes + percent_decoded(rest) =~= percent_decoded(rest));
    } else {
        let byte = bytes[0];
        let head = escaped_byte(byte);
        let tail = percent_encoded(bytes.skip(1));
        let after = encode_utf8(tail) + rest;
        lemma_decode_encoded(bytes.skip(1), rest);
        lemma_encode_utf8_concat(head, tail);
        lemma_hex_digits(byte);
        assert(is_ascii_chars(head));
        is_ascii_chars_encode_utf8(head);
        let whole = encode_utf8(percent_encoded(bytes)) + rest;
        assert(whole =~= encode_utf8(head) + after);
        if is_alphanumeric_byte(byte) {
            assert(head[0] as u8 == byte);
            assert(whole[0] == byte);
            assert(whole.skip(1) =~= after);
        } else {
            assert(whole[0] == head[0] as u8 && whole[1] == head[1] as u8 && whole[2] == head[2] as u8);
            assert(whole.skip(3) =~= after);
        }
        assert(seq![byte] + (bytes.skip(1) + percent_decoded(rest)) =~= bytes + percent_decoded(rest));
    }
}

} // verus!
