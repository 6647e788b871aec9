//! Decimal rendering of identifiers and ratings.
//!
//! Game identifiers are rendered as plain decimal numerals. Ratings are
//! held in tenths of a point and rendered as the shortest decimal form:
//! a whole number of points prints without a fraction ("9"), anything
//! else prints with one fractional digit ("7.5").

use vstd::prelude::*;

verus! {

/// The digit character of a value below ten.
pub open spec fn digit_char(d: int) -> char {
    if d == 0 {
        '0'
    } else if d == 1 {
        '1'
    } else if d == 2 {
        '2'
    } else if d == 3 {
        '3'
    } else if d == 4 {
        '4'
    } else if d == 5 {
        '5'
    } else if d == 6 {
        '6'
    } else if d == 7 {
        '7'
    } else if d == 8 {
        '8'
    } else {
        '9'
    }
}

/// The decimal numeral of `n`, most significant digit first, without
/// leading zeros (the numeral of zero is the single digit `0`).
pub open spec fn decimal_digits(n: nat) -> Seq<char>
    decreases n,
{
    if n < 10 {
        seq![digit_char(n as int)]
    } else {
        decimal_digits(n / 10) + seq![digit_char((n % 10) as int)]
    }
}

/// The single-character string of one decimal digit.
fn digit_str(d: u64) -> (r: &'static str)
    requires
        d < 10,
    ensures
        r@ == seq![digit_char(d as int)],
{
    proof {
        reveal_strlit("0");
        reveal_strlit("1");
        reveal_strlit("2");
        reveal_strlit("3");
        reveal_strlit("4");
        reveal_strlit("5");
        reveal_strlit("6");
        reveal_strlit("7");
        reveal_strlit("8");
        reveal_strlit("9");
    }
    if d == 0 {
        "0"
    } else if d == 1 {
        "1"
    } else if d == 2 {
        "2"
    } else if d == 3 {
        "3"
    } else if d == 4 {
        "4"
    } else if d == 5 {
        "5"
    } else if d == 6 {
        "6"
    } else if d == 7 {
        "7"
    } else if d == 8 {
        "8"
    } else {
        "9"
    }
}

/// Renders `n` as its decimal numeral.
pub fn u64_to_decimal(n: u64) -> (r: String)
    ensures
        r@ == decimal_digits(n as nat),
    decreases n,
{
    if n < 10 {
        String::from_str(digit_str(n))
    } else {
        let mut s = u64_to_decimal(n / 10);
        s.append(digit_str(n % 10));
        proof {
            assert((n / 10) as nat == (n as nat) / 10);
            assert((n % 10) as nat == (n as nat) % 10);
        }
        s
    }
}

/// The text of a rating of `t` tenths of a point: the whole points, and
/// one fractional digit only when the rating is not whole.
pub open spec fn rating_text(t: nat) -> Seq<char> {
    if t % 10 == 0 {
        decimal_digits(t / 10)
    } else {
        decimal_digits(t / 10) + seq!['.'] + seq![digit_char((t % 10) as int)]
    }
}

/// Renders a rating held in tenths of a point.
pub fn rating_to_string(t: u64) -> (r: String)
    ensures
        r@ == rating_text(t as nat),
{
    let frac: u64 = t % 10;
    let mut s = u64_to_decimal(t / 10);
    if frac != 0 {
        s.append(".");
        s.append(digit_str(frac));
        proof {
            reveal_strlit(".");
            assert(s@ == rating_text(t as nat));
        }
    }
    proof {
        assert((t / 10) as nat == (t as nat) / 10);
        assert((t % 10) as nat == (t as nat) % 10);
    }
    s
}

} // verus!
