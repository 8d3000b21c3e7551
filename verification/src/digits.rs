//! Decimal text for unsigned integers, specified digit by digit: plain,
//! and with a separator between each group of three digits.

use vstd::prelude::*;

verus! {

/// The text of the single decimal digit `d`.
pub open spec fn digit_seq(d: int) -> Seq<char> {
    if d == 0 {
        "0"@
    } else if d == 1 {
        "1"@
    } else if d == 2 {
        "2"@
    } else if d == 3 {
        "3"@
    } else if d == 4 {
        "4"@
    } else if d == 5 {
        "5"@
    } else if d == 6 {
        "6"@
    } else if d == 7 {
        "7"@
    } else if d == 8 {
        "8"@
    } else {
        "9"@
    }
}

/// The decimal text of `n`, most significant digit first, without
/// separators or leading zeroes.
pub open spec fn dec_digits(n: int) -> Seq<char>
    decreases n,
{
    if n < 10 {
        digit_seq(n)
    } else {
        dec_digits(n / 10) + digit_seq(n % 10)
    }
}

/// The decimal text of the three-digit group `m`, zero-padded to three
/// digits.
pub open spec fn dec_digits3(m: int) -> Seq<char> {
    digit_seq(m / 100) + digit_seq((m / 10) % 10) + digit_seq(m % 10)
}

/// The decimal text of `n` with a comma between each group of three
/// digits, counted from the right.
pub open spec fn grouped_dec_digits(n: int) -> Seq<char>
    decreases n,
{
    if n < 1000 {
        dec_digits(n)
    } else {
        grouped_dec_digits(n / 1000) + seq![','] + dec_digits3(n % 1000)
    }
}

/// The text of the decimal digit `d`.
fn digit_str(d: u128) -> (r: &'static str)
    requires
        d < 10,
    ensures
        r@ == digit_seq(d as int),
{
    if d == 0 {
        "0"
    } else if d == 1 {
        "1"
    } else if d == 2 {
        "2"
    } else if d == 3 {
        "3"
    } else if d == 4 {
        "4"
    } else if d == 5 {
        "5"
    } else if d == 6 {
        "6"
    } else if d == 7 {
        "7"
    } else if d == 8 {
        "8"
    } else {
        "9"
    }
}

/// Renders `n` in decimal.
pub fn u128_to_dec_string(n: u128) -> (r: String)
    ensures
        r@ == dec_digits(n as int),
    decreases n,
{
    if n < 10 {
        String::from_str(digit_str(n))
    } else {
        proof {
            assert(n / 10 < n && n as int / 10 == (n / 10) as int) by (nonlinear_arith)
                requires
                    n >= 10,
            ;
        }
        let mut s = u128_to_dec_string(n / 10);
        s.append(digit_str(n % 10));
        s
    }
}

/// Renders `n` in decimal with thousands separators.
pub fn u128_to_grouped_string(n: u128) -> (r: String)
    ensures
        r@ == grouped_dec_digits(n as int),
    decreases n,
{
    if n < 1000 {
        u128_to_dec_string(n)
    } else {
        proof {
            assert(n / 1000 < n && n as int / 1000 == (n / 1000) as int && n as int % 1000 == (n
                % 1000) as int) by (nonlinear_arith)
                requires
                    n >= 1000,
            ;
        }
        let mut s = u128_to_grouped_string(n / 1000);
        s.append(",");
        let m = n % 1000;
        s.append(digit_str(m / 100));
        s.append(digit_str((m / 10) % 10));
        s.append(digit_str(m % 10));
        proof {
            reveal_strlit(",");
            assert(","@ =~= seq![',']);
        }
        s
    }
}

} // verus!
