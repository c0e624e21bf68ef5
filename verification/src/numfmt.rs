//! Decimal rendering of integers and of centi-values (integers counting
//! hundredths), used for temperatures in reports and error messages.

use vstd::prelude::*;
use vstd::string::*;

verus! {

/// The decimal digit character for `d` (0 through 9).
pub open spec fn digit_char(d: int) -> char {
    if d == 0 {
        '0'
    } else if d == 1 {
        '1'
    } else if d == 2 {
        '2'
    } else if d == 3 {
        '3'
    } else if d == 4 {
        '4'
    } else if d == 5 {
        '5'
    } else if d == 6 {
        '6'
    } else if d == 7 {
        '7'
    } else if d == 8 {
        '8'
    } else {
        '9'
    }
}

/// The decimal digit sequence of `n`, most significant digit first,
/// without a sign and without leading zeros (except for `n == 0`).
pub open spec fn dec_str(n: nat) -> Seq<char>
    decreases n,
{
    if n < 10 {
        seq![digit_char(n as int)]
    } else {
        dec_str(n / 10).push(digit_char((n % 10) as int))
    }
}

/// The fractional part `f` (0 through 99) written with exactly two digits.
pub open spec fn frac2_str(f: int) -> Seq<char> {
    if f < 10 {
        seq!['0', digit_char(f)]
    } else {
        dec_str(f as nat)
    }
}

/// The non-negative centi-value `n` written with exactly two decimal
/// places, e.g. 2699 is written `26.99`.
pub open spec fn ucenti_str(n: nat) -> Seq<char> {
    dec_str(n / 100) + seq!['.'] + frac2_str((n % 100) as int)
}

/// The centi-value `v` written with exactly two decimal places and a
/// leading minus sign when negative, e.g. -5 is written `-0.05`.
pub open spec fn centi_str(v: int) -> Seq<char> {
    if v >= 0 {
        ucenti_str(v as nat)
    } else {
        seq!['-'] + ucenti_str((-v) as nat)
    }
}

/// The one-character string for the decimal digit `d`.
fn digit_str(d: u64) -> (r: &'static str)
    requires
        d < 10,
    ensures
        r@ == seq![digit_char(d as int)],
{
    if d == 0 {
        proof {
            reveal_strlit("0");
            assert("0"@ =~= seq![digit_char(0)]);
        }
        "0"
    } else if d == 1 {
        proof {
            reveal_strlit("1");
            assert("1"@ =~= seq![digit_char(1)]);
        }
        "1"
    } else if d == 2 {
        proof {
            reveal_strlit("2");
            assert("2"@ =~= seq![digit_char(2)]);
        }
        "2"
    } else if d == 3 {
        proof {
            reveal_strlit("3");
            assert("3"@ =~= seq![digit_char(3)]);
        }
        "3"
    } else if d == 4 {
        proof {
            reveal_strlit("4");
            assert("4"@ =~= seq![digit_char(4)]);
        }
        "4"
    } else if d == 5 {
        proof {
            reveal_strlit("5");
            assert("5"@ =~= seq![digit_char(5)]);
        }
        "5"
    } else if d == 6 {
        proof {
            reveal_strlit("6");
            assert("6"@ =~= seq![digit_char(6)]);
        }
        "6"
    } else if d == 7 {
        proof {
            reveal_strlit("7");
            assert("7"@ =~= seq![digit_char(7)]);
        }
        "7"
    } else if d == 8 {
        proof {
            reveal_strlit("8");
            assert("8"@ =~= seq![digit_char(8)]);
        }
        "8"
    } else {
        proof {
            reveal_strlit("9");
            assert("9"@ =~= seq![digit_char(9)]);
        }
        "9"
    }
}

/// Writes `n` in decimal.
pub fn u64_to_string(n: u64) -> (s: String)
    ensures
        s@ == dec_str(n as nat),
    decreases n,
{
    if n < 10 {
        String::from_str(digit_str(n))
    } else {
        let mut s = u64_to_string(n / 10);
        s.append(digit_str(n % 10));
        proof {
            assert(s@ =~= dec_str(n as nat));
        }
        s
    }
}

/// Writes the non-negative centi-value `n` with two decimal places.
pub fn ucenti_to_string(n: u64) -> (s: String)
    ensures
        s@ == ucenti_str(n as nat),
{
    let whole = n / 100;
    let frac = n % 100;
    let mut s = u64_to_string(whole);
    s.append(".");
    if frac < 10 {
        s.append("0");
    }
    let fs = u64_to_string(frac);
    s.append(fs.as_str());
    proof {
        reveal_strlit(".");
        reveal_strlit("0");
        assert(s@ =~= ucenti_str(n as nat));
    }
    s
}

/// Writes the centi-value `v` with two decimal places and a sign.
pub fn centi_to_string(v: i64) -> (s: String)
    ensures
        s@ == centi_str(v as int),
{
    if v >= 0 {
        ucenti_to_string(v as u64)
    } else {
        let mag: u64 = (-(v as i128)) as u64;
        proof {
            assert(mag as int == -(v as int));
        }
        let mut s = String::from_str("-");
        let rest = ucenti_to_string(mag);
        s.append(rest.as_str());
        proof {
            reveal_strlit("-");
            assert(s@ =~= centi_str(v as int));
        }
        s
    }
}

} // verus!
