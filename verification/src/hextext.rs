//! Key material as hexadecimal text.

use vstd::prelude::*;

verus! {

/// Whether `c` is one of `0`-`9`, `a`-`f`, `A`-`F`.
pub open spec fn is_hex_digit(c: char) -> bool {
    ||| '0' <= c <= '9'
    ||| 'a' <= c <= 'f'
    ||| 'A' <= c <= 'F'
}

/// The number a hexadecimal digit stands for, in either case.
pub open spec fn hex_digit_value(c: char) -> int {
    if '0' <= c <= '9' {
        c as int - '0' as int
    } else if 'a' <= c <= 'f' {
        c as int - 'a' as int + 10
    } else {
        c as int - 'A' as int + 10
    }
}

/// The lower-case digit for a number below sixteen.
pub open spec fn lower_hex_digit(v: int) -> char {
    if v < 10 {
        ('0' as u8 + v) as u8 as char
    } else {
        ('a' as u8 + v - 10) as u8 as char
    }
}

/// Text that stands for bytes: an even number of hexadecimal digits.
pub open spec fn is_hex_text(text: Seq<char>) -> bool {
    &&& text.len() % 2 == 0
    &&& forall|i: int| 0 <= i < text.len() ==> is_hex_digit(#[trigger] text[i])
}

/// The bytes that hexadecimal text stands for: each pair of digits is one
/// byte, high digit first.
pub open spec fn hex_decoding(text: Seq<char>) -> Seq<u8> {
    Seq::new(
        text.len() / 2,
        |i: int| (16 * hex_digit_value(text[2 * i]) + hex_digit_value(text[2 * i + 1])) as u8,
    )
}

/// The lower-case hexadecimal text of bytes: two digits per byte, high digit
/// first.
pub open spec fn hex_encoding(data: Seq<u8>) -> Seq<char> {
    Seq::new(
        2 * data.len(),
        |i: int|
            if i % 2 == 0 {
                lower_hex_digit(data[i / 2] as int / 16)
            } else {
                lower_hex_digit(data[i / 2] as int % 16)
            },
    )
}

/// A lower-case digit is a hexadecimal digit and stands for the number it was
/// made from.
pub proof fn lemma_lower_hex_digit(v: int)
    requires
        0 <= v < 16,
    ensures
        is_hex_digit(lower_hex_digit(v)),
        hex_digit_value(lower_hex_digit(v)) == v,
{
}

/// Encoding never fails to decode, and decoding gives the bytes back.
pub proof fn lemma_hex_round_trip(data: Seq<u8>)
    ensures
        is_hex_text(hex_encoding(data)),
        hex_decoding(hex_encoding(data)) == data,
{
    let text = hex_encoding(data);
    assert forall|i: int| 0 <= i < text.len() implies is_hex_digit(#[trigger] text[i]) by {
        lemma_lower_hex_digit(data[i / 2] as int / 16);
        lemma_lower_hex_digit(data[i / 2] as int % 16);
    }
    assert forall|k: int| 0 <= k < data.len() implies hex_decoding(text)[k] == data[k] by {
        lemma_lower_hex_digit(data[k] as int / 16);
        lemma_lower_hex_digit(data[k] as int % 16);
        assert(text[2 * k] == lower_hex_digit(data[k] as int / 16));
        assert(text[2 * k + 1] == lower_hex_digit(data[k] as int % 16));
    }
    assert(hex_decoding(text) =~= data);
}

/// Different bytes have different texts.
pub proof fn lemma_hex_encoding_injective(first: Seq<u8>, second: Seq<u8>)
    requires
        hex_encoding(first) == hex_encoding(second),
    ensures
        first == second,
{
    lemma_hex_round_trip(first);
    lemma_hex_round_trip(second);
}

/// `hex::FromHexError`, the reason `hex::decode` gives for refusing a text.
#[verifier::external_type_specification]
#[verifier::external_body]
pub struct ExFromHexError(hex::FromHexError);

/// `hex::decode` on a string. It accepts exactly the texts made of an even
/// number of hexadecimal digits, upper or lower case, and returns the byte
/// for each pair of digits, the first digit being the high half.
#[verifier::external_body]
pub(crate) fn decode(text: &str) -> (r: Result<Vec<u8>, hex::FromHexError>)
    ensures
        r is Ok <==> is_hex_text(text@),
        r matches Ok(bytes) ==> bytes@ == hex_decoding(text@),
{
    hex::decode(text)
}

/// `hex::encode` on a byte slice. It returns two lower-case hexadecimal
/// digits for each byte, the high half first.
#[verifier::external_body]
pub(crate) fn encode(data: &[u8]) -> (text: String)
    ensures
        text@ == hex_encoding(data@),
{
    hex::encode(data)
}

} // verus!
