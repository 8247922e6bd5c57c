//! Lowercase hexadecimal text of byte strings, and hex-encoded keys.

use vstd::prelude::*;

use vstd::string::StringSliceAdditionalSpecFns;
use vstd::utf8::{encode_utf8, is_ascii_chars, is_ascii_chars_encode_utf8};

use crate::cipher::KEY_LEN;

verus! {

/// The lowercase hexadecimal digit for `n` in `0..16`.
pub open spec fn hex_digit(n: int) -> char {
    if n < 10 {
        (48 + n) as char
    } else {
        (87 + n) as char
    }
}

/// Lowercase hex text of `bytes`: two digits per byte, high nibble first.
pub open spec fn lower_hex(bytes: Seq<u8>) -> Seq<char> {
    Seq::new(
        2 * bytes.len(),
        |i: int|
            if i % 2 == 0 {
                hex_digit(bytes[i / 2] as int / 16)
            } else {
                hex_digit(bytes[i / 2] as int % 16)
            },
    )
}

/// Whether byte `c` is an ASCII hex digit, in either case.
pub open spec fn is_hex_byte(c: u8) -> bool {
    (48 <= c <= 57) || (65 <= c <= 70) || (97 <= c <= 102)
}

/// The value of the ASCII hex digit `c`.
pub open spec fn hex_byte_value(c: u8) -> int {
    if 48 <= c <= 57 {
        c - 48
    } else if 65 <= c <= 70 {
        c - 55
    } else {
        c - 87
    }
}

/// Whether `text` is the hex text of exactly `len` bytes.
pub open spec fn is_hex_text(text: Seq<u8>, len: nat) -> bool {
    &&& text.len() == 2 * len
    &&& forall|i: int| 0 <= i < text.len() ==> is_hex_byte(#[trigger] text[i])
}

/// Whether `bytes` is what the hex text `text` decodes to.
pub open spec fn decodes_to(text: Seq<u8>, bytes: Seq<u8>) -> bool {
    &&& text.len() == 2 * bytes.len()
    &&& forall|j: int|
        0 <= j < bytes.len() ==> #[trigger] bytes[j] == 16 * hex_byte_value(text[2 * j])
            + hex_byte_value(text[2 * j + 1])
}

/// Appends `c` to `s` with `String::push`.
#[verifier::external_body]
fn push_char(s: &mut String, c: char)
    ensures
        final(s)@ == old(s)@.push(c),
{
    s.push(c);
}

/// The character of the lowercase hex digit `n`.
fn hex_digit_char(n: u8) -> (c: char)
    requires
        n < 16,
    ensures
        c == hex_digit(n as int),
{
    if n < 10 {
        (48 + n) as char
    } else {
        (87 + n) as char
    }
}

/// Formats bytes as lowercase hex, two digits per byte.
pub fn bytes_to_hex(bytes: &[u8]) -> (hex: String)
    ensures
        hex@ == lower_hex(bytes@),
{
    let mut hex = String::new();
    let len = bytes.len();
    let mut i: usize = 0;
    while i < len
        invariant
            i <= len,
            len == bytes@.len(),
            hex@ =~= lower_hex(bytes@.subrange(0, i as int)),
        decreases len - i,
    {
        let b = bytes[i];
        let ghost before = hex@;
        push_char(&mut hex, hex_digit_char(b / 16));
        push_char(&mut hex, hex_digit_char(b % 16));
        assert(hex@ =~= lower_hex(bytes@.subrange(0, i + 1)));
        i = i + 1;
    }
    assert(bytes@.subrange(0, len as int) =~= bytes@);
    hex
}

/// Encodes `data` as lowercase hex with `hex::encode`.
/// Trusted: its documentation gives two lowercase digits per byte.
#[verifier::external_body]
pub(crate) fn hex_encode(data: &[u8]) -> (hex: String)
    ensures
        hex@ == lower_hex(data@),
{
    hex::encode(data)
}

/// Decodes 64 hex digits, in either case, into a key with
/// `<[u8; 32] as hex::FromHex>::from_hex`. Trusted: `decode_to_slice` in the
/// crate's source accepts exactly twice as many digits as bytes, each digit
/// by `val`, and the high nibble first.
#[verifier::external_body]
fn key_from_hex(text: &str) -> (key: Option<[u8; KEY_LEN]>)
    ensures
        key is Some <==> is_hex_text(text.spec_bytes(), KEY_LEN as nat),
        key matches Some(k) ==> decodes_to(text.spec_bytes(), k@),
{
    <[u8; KEY_LEN] as hex::FromHex>::from_hex(text).ok()
}

/// Reads an encryption key given as 64 hex digits (as `ENCRYPTION_KEY` is);
/// `None` when the text is anything else.
pub fn parse_encryption_key(text: &str) -> (key: Option<[u8; KEY_LEN]>)
    ensures
        key is Some <==> is_hex_text(text.spec_bytes(), KEY_LEN as nat),
        key matches Some(k) ==> decodes_to(text.spec_bytes(), k@),
{
    key_from_hex(text)
}

/// Hex text read back gives the bytes it was made from: the UTF-8 bytes of
/// `lower_hex(bytes)` are hex text of `bytes.len()` bytes that decodes to
/// `bytes`. So `parse_encryption_key` reads the text `bytes_to_hex` and
/// `hex::encode` write for a key back as that key.
pub proof fn lemma_hex_round_trip(bytes: Seq<u8>)
    ensures
        is_hex_text(encode_utf8(lower_hex(bytes)), bytes.len()),
        decodes_to(encode_utf8(lower_hex(bytes)), bytes),
{
    let chars = lower_hex(bytes);
    assert forall|i: int| 0 <= i < chars.len() implies '\0' <= #[trigger] chars[i] <= '\u{7f}' by {
        let b = bytes[i / 2] as int;
        assert(0 <= b / 16 < 16 && 0 <= b % 16 < 16);
    }
    assert(is_ascii_chars(chars));
    is_ascii_chars_encode_utf8(chars);
    let text = encode_utf8(chars);
    assert forall|i: int| 0 <= i < text.len() implies is_hex_byte(#[trigger] text[i]) by {
        let b = bytes[i / 2] as int;
        assert(chars[i] as u8 == text[i]);
        assert(0 <= b / 16 < 16 && 0 <= b % 16 < 16);
    }
    assert forall|j: int| 0 <= j < bytes.len() implies #[trigger] bytes[j] == 16 * hex_byte_value(
        text[2 * j],
    ) + hex_byte_value(text[2 * j + 1]) by {
        let b = bytes[j] as int;
        assert(chars[2 * j] as u8 == text[2 * j]);
        assert(chars[2 * j + 1] as u8 == text[2 * j + 1]);
        assert((2 * j) / 2 == j && (2 * j + 1) / 2 == j && (2 * j) % 2 == 0 && (2 * j + 1) % 2 == 1);
        assert(0 <= b / 16 < 16 && 0 <= b % 16 < 16 && b == 16 * (b / 16) + b % 16);
    }
}

} // verus!
