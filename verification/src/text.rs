//! Decimal rendering of small counters, used to build obstacle identities
//! and sprite-sheet frame names.

use vstd::prelude::*;
use vstd::string::StringExecFns;

verus! {

/// The decimal digit character for `d` (meaningful for `0 <= d <= 9`).
pub open spec fn spec_digit(d: int) -> char {
    if d == 0 {
        '0'
    } else if d == 1 {
        '1'
    } else if d == 2 {
        '2'
    } else if d == 3 {
        '3'
    } else if d == 4 {
        '4'
    } else if d == 5 {
        '5'
    } else if d == 6 {
        '6'
    } else if d == 7 {
        '7'
    } else if d == 8 {
        '8'
    } else {
        '9'
    }
}

/// The decimal representation of `n`: no sign, no leading zeros.
pub open spec fn spec_decimal(n: int) -> Seq<char>
    decreases n,
{
    if n < 10 {
        seq![spec_digit(n)]
    } else {
        spec_decimal(n / 10).push(spec_digit(n % 10))
    }
}

/// The decimal representation of `n`, left-padded with zeros to at least
/// three characters.
pub open spec fn spec_padded_decimal(n: int) -> Seq<char> {
    if n < 10 {
        seq!['0', '0'] + spec_decimal(n)
    } else if n < 100 {
        seq!['0'] + spec_decimal(n)
    } else {
        spec_decimal(n)
    }
}

/// The one-character string literal for the digit `d`.
pub fn digit_literal(d: u32) -> (r: &'static str)
    requires
        d < 10,
    ensures
        r@ == seq![spec_digit(d as int)],
{
    proof {
        reveal_strlit("0");
        reveal_strlit("1");
        reveal_strlit("2");
        reveal_strlit("3");
        reveal_strlit("4");
        reveal_strlit("5");
        reveal_strlit("6");
        reveal_strlit("7");
        reveal_strlit("8");
        reveal_strlit("9");
    }
    let r = if d == 0 {
        "0"
    } else if d == 1 {
        "1"
    } else if d == 2 {
        "2"
    } else if d == 3 {
        "3"
    } else if d == 4 {
        "4"
    } else if d == 5 {
        "5"
    } else if d == 6 {
        "6"
    } else if d == 7 {
        "7"
    } else if d == 8 {
        "8"
    } else {
        "9"
    };
    proof {
        assert(r@ =~= seq![spec_digit(d as int)]);
    }
    r
}

/// Renders `n` in decimal.
pub fn decimal_string(n: u32) -> (r: String)
    ensures
        r@ == spec_decimal(n as int),
    decreases n,
{
    if n < 10 {
        String::from_str(digit_literal(n))
    } else {
        let mut s = decimal_string(n / 10);
        s.append(digit_literal(n % 10));
        proof {
            assert(s@ =~= spec_decimal(n as int));
        }
        s
    }
}

/// The decimal representation of `n` with a leading minus sign when
/// negative.
pub open spec fn spec_signed_decimal(n: int) -> Seq<char> {
    if n < 0 {
        seq!['-'] + spec_decimal(-n)
    } else {
        spec_decimal(n)
    }
}

/// Renders `n` in decimal, with a leading minus sign when negative.
pub fn signed_decimal_string(n: i16) -> (r: String)
    ensures
        r@ == spec_signed_decimal(n as int),
{
    let wide: i32 = n as i32;
    if wide < 0 {
        proof {
            reveal_strlit("-");
        }
        let s = String::from_str("-").concat(decimal_string((-wide) as u32).as_str());
        proof {
            assert(s@ =~= spec_signed_decimal(n as int));
        }
        s
    } else {
        decimal_string(n as u32)
    }
}

/// Renders `n` in decimal, left-padded with zeros to at least three
/// characters.
pub fn padded_decimal_string(n: u32) -> (r: String)
    ensures
        r@ == spec_padded_decimal(n as int),
{
    proof {
        reveal_strlit("00");
        reveal_strlit("0");
    }
    if n < 10 {
        let s = String::from_str("00").concat(digit_literal(n));
        proof {
            assert(s@ =~= spec_padded_decimal(n as int));
        }
        s
    } else if n < 100 {
        let s = String::from_str("0").concat(decimal_string(n).as_str());
        proof {
            assert(s@ =~= spec_padded_decimal(n as int));
        }
        s
    } else {
        decimal_string(n)
    }
}

} // verus!
