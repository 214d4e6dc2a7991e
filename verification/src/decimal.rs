//! Integers as decimal text.

use vstd::prelude::*;

verus! {

/// The character for a digit below ten.
pub open spec fn digit_char(d: int) -> char {
    ('0' as u8 + d) as u8 as char
}

/// The decimal digits of a natural number, most significant first, without
/// leading zeros.
pub open spec fn natural_digits(n: nat) -> Seq<char>
    decreases n,
{
    if n < 10 {
        seq![digit_char(n as int)]
    } else {
        natural_digits(n / 10).push(digit_char((n % 10) as int))
    }
}

/// The decimal text of an integer: a minus sign before the digits of a
/// negative number.
pub open spec fn integer_digits(n: int) -> Seq<char> {
    if n < 0 {
        seq!['-'] + natural_digits((-n) as nat)
    } else {
        natural_digits(n as nat)
    }
}

fn digit(d: u32) -> (r: &'static str)
    requires
        d < 10,
    ensures
        r@ == seq![digit_char(d as int)],
{
    proof {
        reveal_strlit("0");
        reveal_strlit("1");
        reveal_strlit("2");
        reveal_strlit("3");
        reveal_strlit("4");
        reveal_strlit("5");
        reveal_strlit("6");
        reveal_strlit("7");
        reveal_strlit("8");
        reveal_strlit("9");
    }
    let r = if d == 0 {
        "0"
    } else if d == 1 {
        "1"
    } else if d == 2 {
        "2"
    } else if d == 3 {
        "3"
    } else if d == 4 {
        "4"
    } else if d == 5 {
        "5"
    } else if d == 6 {
        "6"
    } else if d == 7 {
        "7"
    } else if d == 8 {
        "8"
    } else {
        "9"
    };
    assert(r@ =~= seq![digit_char(d as int)]);
    r
}

/// The decimal text of a natural number.
pub fn natural_text(n: u32) -> (r: String)
    ensures
        r@ == natural_digits(n as nat),
    decreases n,
{
    if n < 10 {
        String::from_str(digit(n))
    } else {
        let mut text = natural_text(n / 10);
        text.append(digit(n % 10));
        assert(text@ =~= natural_digits(n as nat));
        text
    }
}

/// The decimal text of a sixteen-bit integer, as the host's short type holds
/// it.
pub fn integer_text(n: i16) -> (r: String)
    ensures
        r@ == integer_digits(n as int),
{
    if n < 0 {
        let magnitude: u32 = (-(n as i32)) as u32;
        proof {
            reveal_strlit("-");
        }
        let mut text = String::from_str("-");
        let digits = natural_text(magnitude);
        text.append(digits.as_str());
        assert(text@ =~= integer_digits(n as int));
        text
    } else {
        natural_text(n as u32)
    }
}

} // verus!
