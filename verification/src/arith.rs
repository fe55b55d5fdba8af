//! Exact scaled arithmetic on 128-bit prices.

use vstd::prelude::*;
use vstd::arithmetic::div_mod::lemma_fundamental_div_mod;
use vstd::arithmetic::div_mod::lemma_fundamental_div_mod_converse;

verus! {

/// `value * numerator / denominator` over the mathematical integers, rounded down.
pub open spec fn scaled(value: u128, numerator: u64, denominator: u64) -> int {
    (value as int * numerator as int) / (denominator as int)
}

/// `value` limited to the closed interval `[low, high]`.
pub open spec fn clamped(value: int, low: int, high: int) -> int {
    if value < low {
        low
    } else if value > high {
        high
    } else {
        value
    }
}

/// Splitting `value` by `denominator` before multiplying loses nothing.
pub proof fn lemma_scaled_split(value: u128, numerator: u64, denominator: u64)
    requires
        denominator > 0,
    ensures
        scaled(value, numerator, denominator) == (value as int / denominator as int)
            * numerator as int + ((value as int % denominator as int) * numerator as int)
            / denominator as int,
        0 <= (value as int % denominator as int) * numerator as int,
        (value as int % denominator as int) * numerator as int <= 0xffff_ffff_ffff_ffff
            * 0xffff_ffff_ffff_ffff,
        0 <= (value as int / denominator as int) * numerator as int,
{
    let x = value as int;
    let m = numerator as int;
    let d = denominator as int;
    let q = x / d;
    let r = x % d;
    let t = r * m;
    lemma_fundamental_div_mod(x, d);
    lemma_fundamental_div_mod(t, d);
    assert(0 <= r < d);
    assert(0 <= q) by (nonlinear_arith)
        requires
            x >= 0,
            d > 0,
            q == x / d,
    ;
    assert(0 <= t && t <= 0xffff_ffff_ffff_ffff * 0xffff_ffff_ffff_ffff) by (nonlinear_arith)
        requires
            0 <= r <= 0xffff_ffff_ffff_ffff,
            0 <= m <= 0xffff_ffff_ffff_ffff,
            t == r * m,
    ;
    assert(0 <= q * m) by (nonlinear_arith)
        requires
            0 <= q,
            0 <= m,
    ;
    assert(x * m == (q * m + t / d) * d + t % d) by (nonlinear_arith)
        requires
            x == d * q + r,
            t == r * m,
            t == d * (t / d) + t % d,
    ;
    assert(0 <= t % d < d) by (nonlinear_arith)
        requires
            d > 0,
    ;
    lemma_fundamental_div_mod_converse(x * m, d, q * m + t / d, t % d);
}

/// Computes `value * numerator / denominator` exactly, or reports that the
/// quotient does not fit in 128 bits.
pub fn mul_div(value: u128, numerator: u64, denominator: u64) -> (result: Option<u128>)
    requires
        denominator > 0,
    ensures
        result.is_some() <==> scaled(value, numerator, denominator) <= u128::MAX,
        result.is_some() ==> result.unwrap() == scaled(value, numerator, denominator),
{
    let whole: u128 = value / (denominator as u128);
    let rest: u128 = value % (denominator as u128);
    proof {
        lemma_scaled_split(value, numerator, denominator);
        assert(0 <= (rest as int * numerator as int) / (denominator as int)) by (nonlinear_arith)
            requires
                0 <= rest as int * numerator as int,
                denominator as int > 0,
        ;
    }
    let low: u128 = rest * (numerator as u128) / (denominator as u128);
    match whole.checked_mul(numerator as u128) {
        None => None,
        Some(high) => high.checked_add(low),
    }
}

/// Limits `value` to `[low, high]`.
pub fn clamp(value: u128, low: u128, high: u128) -> (result: u128)
    requires
        low <= high,
    ensures
        result == clamped(value as int, low as int, high as int),
{
    if value < low {
        low
    } else if value > high {
        high
    } else {
        value
    }
}

/// Scales `value` by `numerator / denominator`, then limits it to `[low, high]`.
/// A quotient beyond 128 bits is above every `high`.
pub fn scale_and_clamp(value: u128, numerator: u64, denominator: u64, low: u128, high: u128) -> (result: u128)
    requires
        denominator > 0,
        low <= high,
    ensures
        result == clamped(scaled(value, numerator, denominator), low as int, high as int),
        low <= result <= high,
{
    match mul_div(value, numerator, denominator) {
        Some(exact) => clamp(exact, low, high),
        None => high,
    }
}

} // verus!
