//! Percent-decoding of attribute values.

use vstd::prelude::*;
use vstd::string::StringSliceAdditionalSpecFns;
use vstd::utf8::{decode_utf8, encode_utf8, valid_utf8};

verus! {

/// The value of an ASCII hexadecimal digit, in either case.
pub open spec fn hex_value(b: u8) -> Option<u8> {
    if 0x30 <= b <= 0x39 {
        Some((b - 0x30) as u8)
    } else if 0x41 <= b <= 0x46 {
        Some((b - 0x41 + 10) as u8)
    } else if 0x61 <= b <= 0x66 {
        Some((b - 0x61 + 10) as u8)
    } else {
        None
    }
}

/// Whether `bytes` begins with `%` and two hexadecimal digits.
pub open spec fn starts_with_escape(bytes: Seq<u8>) -> bool {
    &&& bytes.len() >= 3
    &&& bytes[0] == 0x25
    &&& hex_value(bytes[1]) is Some
    &&& hex_value(bytes[2]) is Some
}

/// The byte that a leading escape stands for.
pub open spec fn escaped_byte(bytes: Seq<u8>) -> u8
    recommends
        starts_with_escape(bytes),
{
    (hex_value(bytes[1])->0 * 16 + hex_value(bytes[2])->0) as u8
}

/// Percent-decoding: every `%` that two hexadecimal digits follow becomes the
/// byte they spell, and every other byte stands for itself.
pub open spec fn percent_decoded(bytes: Seq<u8>) -> Seq<u8>
    decreases bytes.len(),
{
    if bytes.len() == 0 {
        Seq::empty()
    } else if starts_with_escape(bytes) {
        seq![escaped_byte(bytes)] + percent_decoded(bytes.skip(3))
    } else {
        seq![bytes[0]] + percent_decoded(bytes.drop_first())
    }
}

/// The bytes that a percent-encoded text stands for.
pub open spec fn decoded_bytes(value: Seq<char>) -> Seq<u8> {
    percent_decoded(encode_utf8(value))
}

/// The text that a percent-encoded text stands for, where its bytes are UTF-8.
pub open spec fn decoded_text(value: Seq<char>) -> Option<Seq<char>> {
    if valid_utf8(decoded_bytes(value)) {
        Some(decode_utf8(decoded_bytes(value)))
    } else {
        None
    }
}

/// Whether `encoded` is a percent-encoded form of `raw`: each byte of `raw` is
/// either written as it is (never a `%`) or as `%` and its two hexadecimal
/// digits.
pub open spec fn encodes(encoded: Seq<u8>, raw: Seq<u8>) -> bool
    decreases encoded.len(),
{
    if encoded.len() == 0 {
        raw.len() == 0
    } else if raw.len() == 0 {
        false
    } else if encoded[0] != 0x25 {
        encoded[0] == raw[0] && encodes(encoded.drop_first(), raw.drop_first())
    } else {
        &&& starts_with_escape(encoded)
        &&& escaped_byte(encoded) == raw[0]
        &&& encodes(encoded.skip(3), raw.drop_first())
    }
}

/// The upper-case hexadecimal digit of a number below 16.
pub open spec fn hex_digit(n: u8) -> u8
    recommends
        n < 16,
{
    if n < 10 {
        (0x30 + n) as u8
    } else {
        (0x41 + n - 10) as u8
    }
}

/// `raw` with every byte written as `%` and two hexadecimal digits.
pub open spec fn escaped(raw: Seq<u8>) -> Seq<u8>
    decreases raw.len(),
{
    if raw.len() == 0 {
        Seq::empty()
    } else {
        seq![0x25u8, hex_digit(raw[0] / 16), hex_digit(raw[0] % 16)] + escaped(raw.drop_first())
    }
}

/// Every byte string has a percent-encoded form: the one that escapes every
/// byte.
pub proof fn lemma_escaped_encodes(raw: Seq<u8>)
    ensures
        encodes(escaped(raw), raw),
    decreases raw.len(),
{
    if raw.len() > 0 {
        let e = escaped(raw);
        let b = raw[0];
        lemma_escaped_encodes(raw.drop_first());
        assert(e.skip(3) =~= escaped(raw.drop_first()));
        assert(e[0] == 0x25u8 && e[1] == hex_digit(b / 16) && e[2] == hex_digit(b % 16));
        assert(hex_value(hex_digit(b / 16)) == Some((b / 16) as u8));
        assert(hex_value(hex_digit(b % 16)) == Some((b % 16) as u8));
        assert((b / 16) * 16 + b % 16 == b);
    }
}

/// Decoding any percent-encoded form of a byte string gives that byte string
/// back.
pub proof fn lemma_decoding_inverts_encoding(encoded: Seq<u8>, raw: Seq<u8>)
    requires
        encodes(encoded, raw),
    ensures
        percent_decoded(encoded) == raw,
    decreases encoded.len(),
{
    if encoded.len() == 0 {
        assert(percent_decoded(encoded) =~= raw);
    } else if encoded[0] != 0x25 {
        lemma_decoding_inverts_encoding(encoded.drop_first(), raw.drop_first());
        assert(seq![raw[0]] + raw.drop_first() =~= raw);
    } else {
        lemma_decoding_inverts_encoding(encoded.skip(3), raw.drop_first());
        assert(seq![raw[0]] + raw.drop_first() =~= raw);
    }
}

/// A byte-valued attribute survives the round trip: whatever percent-encoded
/// form of `plain` the text `value` spells, it decodes to `plain`.
pub proof fn lemma_bytes_round_trip(value: Seq<char>, plain: Seq<u8>)
    requires
        encodes(encode_utf8(value), plain),
    ensures
        decoded_bytes(value) == plain,
{
    lemma_decoding_inverts_encoding(encode_utf8(value), plain);
}

/// A text-valued attribute survives the round trip: whatever percent-encoded
/// form of the UTF-8 bytes of `plain` the text `value` spells, it decodes
/// to `plain`.
pub proof fn lemma_text_round_trip(value: Seq<char>, plain: Seq<char>)
    requires
        encodes(encode_utf8(value), encode_utf8(plain)),
    ensures
        decoded_text(value) == Some(plain),
{
    lemma_decoding_inverts_encoding(encode_utf8(value), encode_utf8(plain));
    vstd::utf8::encode_utf8_valid_utf8(plain);
    vstd::utf8::encode_utf8_decode_utf8(plain);
}

/// Calls `percent_encoding::percent_decode_str` and collects the bytes it
/// yields. The contract restates that crate's decoding rule: a `%` followed
/// by two hexadecimal digits yields the byte they spell, anything else is
/// passed through.
#[verifier::external_body]
fn decode_to_bytes(value: &str) -> (bytes: Vec<u8>)
    ensures
        bytes@ == decoded_bytes(value@),
{
    percent_encoding::percent_decode_str(value).collect()
}

/// Calls `percent_encoding::PercentDecode::decode_utf8` on the decoder of
/// `value`: the decoded bytes as a string when they are well-formed UTF-8,
/// nothing otherwise.
#[verifier::external_body]
fn decode_to_text(value: &str) -> (text: Option<String>)
    ensures
        text is Some <==> decoded_text(value@) is Some,
        text matches Some(t) ==> decoded_text(value@) == Some(t@),
{
    percent_encoding::percent_decode_str(value).decode_utf8().ok().map(|t| t.into_owned())
}

/// Percent-decodes `value` into text. Fails, handing `value` back, exactly
/// when the decoded bytes are not UTF-8.
pub fn percent_decode_string(value: &str) -> (decoded: Result<String, &str>)
    ensures
        decoded matches Ok(text) ==> decoded_text(value@) == Some(text@),
        decoded matches Err(raw) ==> decoded_text(value@) is None && raw@ == value@,
{
    match decode_to_text(value) {
        Some(text) => Ok(text),
        None => Err(value),
    }
}

/// Percent-decodes `value` into raw bytes. This never fails.
pub fn percent_decode_bytes(value: &str) -> (decoded: Result<Vec<u8>, &str>)
    ensures
        decoded matches Ok(bytes) && bytes@ == decoded_bytes(value@),
{
    Ok(decode_to_bytes(value))
}

} // verus!
