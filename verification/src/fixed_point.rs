//! Conversion between raw token amounts and USD value, in integers.
use vstd::prelude::*;
use crate::accounts::MAX_DECIMALS;
use crate::token_swap::SymmetryTokenSwap;

verus! {

/// `10` to the power `d`.
pub open spec fn pow10(d: nat) -> nat
    decreases d,
{
    if d == 0 {
        1
    } else {
        10 * pow10((d - 1) as nat)
    }
}

/// `floor(a * b / c)`, or zero where `c` is zero or the quotient does not fit in a `u64`.
pub open spec fn spec_mul_div(a: nat, b: nat, c: nat) -> nat {
    if c == 0 {
        0
    } else if (a * b) / c > u64::MAX {
        0
    } else {
        (a * b) / c
    }
}

/// The USD value of `amount` raw units at `price` per whole token.
pub open spec fn spec_amount_to_usd_value(amount: nat, decimals: nat, price: nat) -> nat {
    spec_mul_div(amount, price, pow10(decimals))
}

/// The raw units that `worth` USD buys at `price` per whole token.
pub open spec fn spec_usd_value_to_amount(worth: nat, decimals: nat, price: nat) -> nat {
    spec_mul_div(worth, pow10(decimals), price)
}

/// A power of ten is at least one.
pub proof fn lemma_pow10_positive(d: nat)
    ensures
        pow10(d) >= 1,
    decreases d,
{
    if d > 0 {
        lemma_pow10_positive((d - 1) as nat);
    }
}

/// A larger exponent gives no smaller power.
pub proof fn lemma_pow10_monotonic(d: nat, e: nat)
    requires
        d <= e,
    ensures
        pow10(d) <= pow10(e),
    decreases e,
{
    if d < e {
        lemma_pow10_monotonic(d, (e - 1) as nat);
    }
}

/// The power of ten of an exponent up to `MAX_DECIMALS` fits in a `u64`.
pub proof fn lemma_pow10_fits(d: nat)
    requires
        d <= MAX_DECIMALS,
    ensures
        1 <= pow10(d) <= 10_000_000_000_000_000_000,
{
    lemma_pow10_positive(d);
    lemma_pow10_monotonic(d, 19);
    assert(pow10(19) == 10_000_000_000_000_000_000) by {
        reveal_with_fuel(pow10, 20);
    }
}

/// A zero divisor gives zero, whatever the factors.
pub proof fn mul_div_by_zero(a: nat, b: nat)
    ensures
        spec_mul_div(a, b, 0) == 0,
{
}

/// The result always fits in a `u64`.
pub proof fn mul_div_fits(a: nat, b: nat, c: nat)
    ensures
        spec_mul_div(a, b, c) <= u64::MAX,
{
}

/// Nothing is worth nothing.
pub proof fn lemma_mul_div_of_zero(b: nat, c: nat)
    ensures
        spec_mul_div(0, b, c) == 0,
{
    if c > 0 {
        assert(0 * b == 0) by (nonlinear_arith);
        assert(0nat / c == 0) by (nonlinear_arith)
            requires
                c > 0,
        ;
    }
}

/// A factor that does not exceed the divisor does not enlarge.
pub proof fn lemma_mul_div_le(a: nat, b: nat, c: nat)
    requires
        b <= c,
    ensures
        spec_mul_div(a, b, c) <= a,
{
    if c > 0 {
        assert((a * b) / c <= a) by (nonlinear_arith)
            requires
                b <= c,
                c > 0,
        ;
    }
}

/// Where the larger quotient fits, the quotient grows with the first factor.
pub proof fn lemma_mul_div_monotonic(a1: nat, a2: nat, b: nat, c: nat)
    requires
        a1 <= a2,
        c > 0 ==> (a2 * b) / c <= u64::MAX,
    ensures
        spec_mul_div(a1, b, c) <= spec_mul_div(a2, b, c),
        c > 0 ==> spec_mul_div(a1, b, c) == (a1 * b) / c,
{
    if c > 0 {
        assert((a1 * b) / c <= (a2 * b) / c) by (nonlinear_arith)
            requires
                a1 <= a2,
                c > 0,
        ;
    }
}

/// Converting an amount to its value and back never gives more than the
/// amount, and loses less than what one unit of value buys, plus one: for a
/// price above zero and a value that fits in a `u64`.
pub proof fn conversion_round_trip(amount: nat, decimals: nat, price: nat)
    requires
        amount <= u64::MAX,
        price > 0,
        (amount * price) / pow10(decimals) <= u64::MAX,
    ensures
        spec_usd_value_to_amount(
            spec_amount_to_usd_value(amount, decimals, price),
            decimals,
            price,
        ) <= amount,
        (amount - spec_usd_value_to_amount(
            spec_amount_to_usd_value(amount, decimals, price),
            decimals,
            price,
        )) * price < pow10(decimals) + price,
        amount - spec_usd_value_to_amount(
            spec_amount_to_usd_value(amount, decimals, price),
            decimals,
            price,
        ) <= pow10(decimals) / price + 1,
{
    let d = pow10(decimals);
    lemma_pow10_positive(decimals);
    let value = (amount * price) / d;
    assert(spec_amount_to_usd_value(amount, decimals, price) == value);
    assert(value * d <= amount * price && amount * price < value * d + d) by (nonlinear_arith)
        requires
            value == (amount * price) / d,
            d > 0,
    ;
    let back = (value * d) / price;
    assert(back * price <= value * d && value * d < back * price + price) by (nonlinear_arith)
        requires
            back == (value * d) / price,
            price > 0,
    ;
    assert(back <= amount) by (nonlinear_arith)
        requires
            back * price <= amount * price,
            price > 0,
    ;
    assert(spec_usd_value_to_amount(value, decimals, price) == back);
    assert((amount - back) * price == amount * price - back * price) by (nonlinear_arith);
    assert(amount - back <= d / price + 1) by (nonlinear_arith)
        requires
            (amount - back) * price < d + price,
            price > 0,
            d > 0,
            amount >= back,
    ;
}

/// `10` to the power `decimals`.
pub fn pow10_u64(decimals: u8) -> (r: u64)
    requires
        decimals <= MAX_DECIMALS,
    ensures
        r == pow10(decimals as nat),
{
    let mut r: u64 = 1;
    let mut i: u8 = 0;
    while i < decimals
        invariant
            i <= decimals <= MAX_DECIMALS,
            r == pow10(i as nat),
        decreases decimals - i,
    {
        proof {
            lemma_pow10_fits((i + 1) as nat);
        }
        r = r * 10;
        i = i + 1;
    }
    r
}

impl SymmetryTokenSwap {
    /// Multiplies, then divides, in double width. A zero divisor and a
    /// quotient too large for a `u64` both give zero.
    pub fn mul_div(a: u64, b: u64, c: u64) -> (r: u64)
        ensures
            r == spec_mul_div(a as nat, b as nat, c as nat),
            c == 0 ==> r == 0,
    {
        if c == 0 {
            return 0;
        }
        assert(a * b <= 0xffff_ffff_ffff_ffff * 0xffff_ffff_ffff_ffff) by (nonlinear_arith)
            requires
                a <= 0xffff_ffff_ffff_ffff,
                b <= 0xffff_ffff_ffff_ffff,
        ;
        let product: u128 = (a as u128) * (b as u128);
        let quotient: u128 = product / (c as u128);
        if quotient > u64::MAX as u128 {
            0
        } else {
            quotient as u64
        }
    }

    /// The USD value of `amount` raw units of a token with `decimals` decimals.
    pub fn amount_to_usd_value(amount: u64, decimals: u8, price: u64) -> (r: u64)
        requires
            decimals <= MAX_DECIMALS,
        ensures
            r == spec_amount_to_usd_value(amount as nat, decimals as nat, price as nat),
    {
        Self::mul_div(amount, price, pow10_u64(decimals))
    }

    /// The raw units of a token with `decimals` decimals that `worth` USD buys.
    pub fn usd_value_to_amount(worth: u64, decimals: u8, price: u64) -> (r: u64)
        requires
            decimals <= MAX_DECIMALS,
        ensures
            r == spec_usd_value_to_amount(worth as nat, decimals as nat, price as nat),
    {
        Self::mul_div(worth, pow10_u64(decimals), price)
    }
}

} // verus!
