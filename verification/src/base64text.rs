//! Ciphertexts and handles as base64 text.

use base64::Engine;
use vstd::prelude::*;

verus! {

/// How many characters the base64 text of `n` bytes has, without padding:
/// four for every three bytes, and two or three for one or two bytes left
/// over.
pub open spec fn base64_length(n: nat) -> nat {
    n / 3 * 4 + if n % 3 == 0 {
        0nat
    } else {
        n % 3 + 1
    }
}

/// The character of the standard alphabet for a number below sixty-four:
/// `A`-`Z`, `a`-`z`, `0`-`9`, `+`, `/`.
pub open spec fn base64_symbol(v: int) -> char {
    if v < 26 {
        ('A' as u8 + v) as u8 as char
    } else if v < 52 {
        ('a' as u8 + v - 26) as u8 as char
    } else if v < 62 {
        ('0' as u8 + v - 52) as u8 as char
    } else if v == 62 {
        '+'
    } else {
        '/'
    }
}

/// The byte at `i`, or zero past the end of `data`.
pub open spec fn byte_or_zero(data: Seq<u8>, i: int) -> int {
    if 0 <= i < data.len() {
        data[i] as int
    } else {
        0
    }
}

/// The `k`-th group of six bits of `data`, read as one string of bits, high
/// bit first, and filled up with zero bits at the end.
pub open spec fn sextet(data: Seq<u8>, k: int) -> int {
    let a = byte_or_zero(data, k / 4 * 3);
    let b = byte_or_zero(data, k / 4 * 3 + 1);
    let c = byte_or_zero(data, k / 4 * 3 + 2);
    if k % 4 == 0 {
        a / 4
    } else if k % 4 == 1 {
        a % 4 * 16 + b / 16
    } else if k % 4 == 2 {
        b % 16 * 4 + c / 64
    } else {
        c % 64
    }
}

/// The base64 text of bytes in the standard alphabet, without padding.
pub open spec fn base64_encoding(data: Seq<u8>) -> Seq<char> {
    Seq::new(base64_length(data.len()), |k: int| base64_symbol(sextet(data, k)))
}

/// `encode` of `base64`'s `STANDARD_NO_PAD` engine on a byte slice. It
/// returns the text of RFC 4648 in the standard alphabet and leaves the
/// padding out. It panics where the length of that text does not fit in
/// `usize`, which `requires` excludes.
#[verifier::external_body]
pub(crate) fn encode(data: &[u8]) -> (text: String)
    requires
        base64_length(data@.len()) <= usize::MAX,
    ensures
        text@ == base64_encoding(data@),
{
    base64::engine::general_purpose::STANDARD_NO_PAD.encode(data)
}

} // verus!
