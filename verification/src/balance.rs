//! Token balances: an amount in base units (`e8s`) together with the
//! token's decimal places.
//!
//! Ledgers serve the amount as an unbounded natural; it is held here as a
//! 128-bit integer, which covers every amount they hand out.

use vstd::prelude::*;

use crate::digits::{dec_digits, grouped_dec_digits, u128_to_dec_string, u128_to_grouped_string};

verus! {

/// 10 to the power `d`.
pub open spec fn pow10(d: int) -> int
    decreases d,
{
    if d <= 0 {
        1
    } else {
        10 * pow10(d - 1)
    }
}

/// Powers of ten are positive and grow with the exponent.
pub proof fn lemma_pow10_mono(a: int, b: int)
    requires
        a <= b,
    ensures
        1 <= pow10(a) <= pow10(b),
    decreases b,
{
    if b > 0 {
        lemma_pow10_mono(
            if a <= b - 1 {
                a
            } else {
                b - 1
            },
            b - 1,
        );
    }
}

/// 10 to the power `d`, executable; the exponent must leave the result
/// within 64 bits, which holds for every supported token.
pub fn pow10_u64(d: u8) -> (r: u64)
    requires
        d <= 19,
    ensures
        r as int == pow10(d as int),
{
    let mut acc: u64 = 1;
    let mut i: u8 = 0;
    while i < d
        invariant
            i <= d <= 19,
            acc as int == pow10(i as int),
        decreases d - i,
    {
        proof {
            reveal_with_fuel(pow10, 21);
            lemma_pow10_mono(i as int + 1, 19);
            assert(pow10(i as int + 1) == 10 * pow10(i as int));
        }
        acc = acc * 10;
        i = i + 1;
    }
    acc
}

/// A token amount in base units, with the token's decimal places.
#[derive(Clone, Copy, Debug)]
pub struct TokenBalance {
    pub e8s: u128,
    pub decimals: u8,
}

impl TokenBalance {
    /// A balance of `e8s` base units for a token with `decimals` places.
    pub fn new(e8s: u128, decimals: u8) -> (r: Self)
        ensures
            r == (TokenBalance { e8s, decimals }),
    {
        TokenBalance { e8s, decimals }
    }

    /// A balance with the 8 decimal places every community token uses.
    pub fn new_cdao(e8s: u128) -> (r: Self)
        ensures
            r == (TokenBalance { e8s, decimals: 8u8 }),
    {
        TokenBalance { e8s, decimals: 8 }
    }

    /// The whole-token amount, in decimal text with thousands
    /// separators.
    pub fn humanize(&self) -> (r: String)
        requires
            self.decimals <= 19,
        ensures
            r@ == grouped_dec_digits(self.e8s as int / pow10(self.decimals as int)),
    {
        let p = pow10_u64(self.decimals);
        proof {
            lemma_pow10_mono(0, self.decimals as int);
        }
        u128_to_grouped_string(self.e8s / (p as u128))
    }

    /// The number of whole tokens (not base units), in plain decimal
    /// text without separators.
    pub fn to_tokens(&self) -> (r: String)
        requires
            self.decimals <= 19,
        ensures
            r@ == dec_digits(self.e8s as int / pow10(self.decimals as int)),
    {
        let p = pow10_u64(self.decimals);
        proof {
            lemma_pow10_mono(0, self.decimals as int);
        }
        u128_to_dec_string(self.e8s / (p as u128))
    }
}

impl PartialEq for TokenBalance {
    /// Balances compare by amount alone; the decimal places carry no
    /// weight.
    fn eq(&self, other: &Self) -> (r: bool) {
        self.e8s == other.e8s
    }
}

impl vstd::std_specs::cmp::PartialEqSpecImpl for TokenBalance {
    open spec fn obeys_eq_spec() -> bool {
        true
    }

    open spec fn eq_spec(&self, other: &Self) -> bool {
        self.e8s == other.e8s
    }
}

/// A balance that may still be claiming: `None` stands for a claim in
/// flight.
#[derive(Clone, Copy, Debug)]
pub struct TokenBalanceOrClaiming(pub Option<TokenBalance>);

impl TokenBalanceOrClaiming {
    /// A settled balance.
    pub fn new(balance: TokenBalance) -> (r: Self)
        ensures
            r.0 == Some(balance),
    {
        TokenBalanceOrClaiming(Some(balance))
    }

    /// A balance still being claimed.
    pub fn claiming() -> (r: Self)
        ensures
            r.0 is None,
    {
        TokenBalanceOrClaiming(None)
    }

    /// Whether the claim is still in flight.
    pub fn is_claiming(&self) -> (r: bool)
        ensures
            r == (self.0 is None),
    {
        self.0.is_none()
    }

    /// The whole-token amount in decimal text with thousands separators,
    /// or a placeholder while the claim is in flight.
    pub fn humanize(&self) -> (r: String)
        requires
            self.0 matches Some(b) ==> b.decimals <= 19,
        ensures
            self.0 matches Some(b) ==> r@ == grouped_dec_digits(
                b.e8s as int / pow10(b.decimals as int),
            ),
            self.0 is None ==> r@ == "Processing"@,
    {
        match &self.0 {
            Some(b) => b.humanize(),
            None => String::from_str("Processing"),
        }
    }
}

} // verus!
