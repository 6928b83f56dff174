//! Hexadecimal text: what the encoding of a byte string is, what counts as
//! well-formed hexadecimal text, and the two calls into the `hex` crate.

use vstd::prelude::*;

verus! {

/// The lower-case hexadecimal digit for a value below sixteen.
pub open spec fn hex_digit(n: int) -> char {
    seq!['0', '1', '2', '3', '4', '5', '6', '7', '8', '9', 'a', 'b', 'c', 'd', 'e', 'f'][n]
}

/// The hexadecimal text of a byte string: two lower-case digits per byte,
/// high half first.
pub open spec fn hex_text(data: Seq<u8>) -> Seq<char> {
    Seq::new(
        2 * data.len(),
        |i: int|
            if i % 2 == 0 {
                hex_digit(data[i / 2] as int / 16)
            } else {
                hex_digit(data[i / 2] as int % 16)
            },
    )
}

/// Whether a character is a lower-case hexadecimal digit.
pub open spec fn is_hex_char(c: char) -> bool {
    ('0' <= c <= '9') || ('a' <= c <= 'f')
}

/// Fixed-length hexadecimal text: `len` lower-case digits.
pub open spec fn is_hex_string(text: Seq<char>, len: nat) -> bool {
    text.len() == len && forall|i: int| 0 <= i < text.len() ==> is_hex_char(#[trigger] text[i])
}

/// Whether a byte is an ASCII hexadecimal digit of either case.
pub open spec fn is_hex_digit(b: u8) -> bool {
    (48 <= b <= 57) || (65 <= b <= 70) || (97 <= b <= 102)
}

/// The value of an ASCII hexadecimal digit.
pub open spec fn hex_value(b: u8) -> int {
    if 48 <= b <= 57 {
        b - 48
    } else if 65 <= b <= 70 {
        b - 55
    } else {
        b - 87
    }
}

/// Well-formed hexadecimal text: an even number of bytes, each a digit.
pub open spec fn is_hex_text(text: Seq<u8>) -> bool {
    text.len() % 2 == 0 && forall|i: int| 0 <= i < text.len() ==> is_hex_digit(#[trigger] text[i])
}

/// The bytes that well-formed hexadecimal text stands for.
pub open spec fn hex_bytes(text: Seq<u8>) -> Seq<u8> {
    Seq::new(
        text.len() / 2,
        |i: int| (16 * hex_value(text[2 * i]) + hex_value(text[2 * i + 1])) as u8,
    )
}

/// `hex::FromHexError`, carried through as an opaque value: callers only
/// tell failure from success.
#[verifier::external_type_specification]
#[verifier::external_body]
pub struct ExFromHexError(hex::FromHexError);

/// `hex::encode`, trusted: it writes each byte as two digits taken from the
/// lower-case table, the high four bits first, so the text is `hex_text`.
#[verifier::external_body]
pub(crate) fn encode(data: &[u8]) -> (text: String)
    ensures
        text@ == hex_text(data@),
{
    hex::encode(data)
}

/// `hex::decode`, trusted: it fails on an odd length and on any byte that is
/// not a digit of either case, and otherwise joins each pair of digit values
/// into one byte, so success is `is_hex_text` and the bytes are `hex_bytes`.
#[verifier::external_body]
pub(crate) fn decode(text: &[u8]) -> (r: Result<Vec<u8>, hex::FromHexError>)
    ensures
        r.is_ok() == is_hex_text(text@),
        r matches Ok(bytes) ==> bytes@ == hex_bytes(text@),
{
    hex::decode(text)
}

/// The text of any byte string is made of lower-case hexadecimal digits,
/// two for each byte.
pub proof fn lemma_hex_text_shape(data: Seq<u8>)
    ensures
        is_hex_string(hex_text(data), 2 * data.len()),
{
    assert forall|i: int| 0 <= i < hex_text(data).len() implies is_hex_char(
        #[trigger] hex_text(data)[i],
    ) by {
        let byte = data[i / 2] as int;
        let n = if i % 2 == 0 { byte / 16 } else { byte % 16 };
        assert(0 <= n < 16);
        assert(hex_text(data)[i] == hex_digit(n));
        assert(is_hex_char(hex_digit(n)));
    }
}

} // verus!
