//! Integer helpers shared by the rules: bounds over mathematical integers and
//! saturating arithmetic on machine words.

use vstd::prelude::*;

verus! {

/// The larger of two integers.
pub open spec fn max_int(a: int, b: int) -> int {
    if a >= b { a } else { b }
}

/// The smaller of two integers.
pub open spec fn min_int(a: int, b: int) -> int {
    if a <= b { a } else { b }
}

/// `x` moved into `lo..=hi`.
pub open spec fn clamp_int(x: int, lo: int, hi: int) -> int {
    if x < lo { lo } else if x > hi { hi } else { x }
}

/// `x` cut off at the largest `u64`.
pub open spec fn sat_u64(x: int) -> int {
    min_int(x, u64::MAX as int)
}

/// `x` cut off at the largest `usize`.
pub open spec fn sat_usize(x: int) -> int {
    min_int(x, usize::MAX as int)
}

/// The quotient rounded up, for a non-negative `x` and a positive `d`.
pub open spec fn ceil_div(x: int, d: int) -> int {
    (x + d - 1) / d
}

/// Saturating product of two `u64` values.
pub fn saturating_mul_u64(a: u64, b: u64) -> (r: u64)
    ensures
        r == sat_u64(a * b),
{
    match a.checked_mul(b) {
        Some(product) => product,
        None => u64::MAX,
    }
}

/// Saturating product of two `u128` values.
pub fn saturating_mul_u128(a: u128, b: u128) -> (r: u128)
    ensures
        r == min_int(a * b, u128::MAX as int),
{
    match a.checked_mul(b) {
        Some(product) => product,
        None => u128::MAX,
    }
}

/// Saturating product of two `usize` values.
pub fn saturating_mul_usize(a: usize, b: usize) -> (r: usize)
    ensures
        r == sat_usize(a * b),
{
    match a.checked_mul(b) {
        Some(product) => product,
        None => usize::MAX,
    }
}

/// `x` moved into `lo..=hi`.
pub fn clamp_u64(x: u64, lo: u64, hi: u64) -> (r: u64)
    requires
        lo <= hi,
    ensures
        r == clamp_int(x as int, lo as int, hi as int),
{
    if x < lo { lo } else if x > hi { hi } else { x }
}

/// `x` moved into `lo..=hi`.
pub fn clamp_usize(x: usize, lo: usize, hi: usize) -> (r: usize)
    requires
        lo <= hi,
    ensures
        r == clamp_int(x as int, lo as int, hi as int),
{
    if x < lo { lo } else if x > hi { hi } else { x }
}

/// `value` as a `usize`, cut off where the machine word is narrower.
pub fn usize_from_u64(value: u64) -> (r: usize)
    ensures
        r == sat_usize(value as int),
{
    match usize::try_from(value) {
        Ok(word) => word,
        Err(_) => usize::MAX,
    }
}

/// `value` as a `u64`, cut off at the largest one.
pub fn u64_from_u128(value: u128) -> (r: u64)
    ensures
        r == sat_u64(value as int),
{
    if value > 0xffff_ffff_ffff_ffff { u64::MAX } else { value as u64 }
}

/// `value` as a `u64`; a machine word never exceeds one.
pub fn u64_from_usize(value: usize) -> (r: u64)
    ensures
        r == value,
{
    value as u64
}

/// The quotient rounded up.
pub fn div_ceil_u64(x: u64, d: u64) -> (r: u64)
    requires
        d > 0,
    ensures
        r == ceil_div(x as int, d as int),
{
    let quotient: u64 = x / d;
    let remainder: u64 = x % d;
    proof {
        lemma_ceil_div(x as int, d as int);
    }
    if remainder == 0 { quotient } else { quotient + 1 }
}

/// The quotient rounded up.
pub fn div_ceil_u128(x: u128, d: u128) -> (r: u128)
    requires
        d > 0,
    ensures
        r == ceil_div(x as int, d as int),
{
    let quotient: u128 = x / d;
    let remainder: u128 = x % d;
    proof {
        lemma_ceil_div(x as int, d as int);
    }
    if remainder == 0 { quotient } else { quotient + 1 }
}

/// Rounding up adds one to the quotient exactly where a remainder is left.
pub proof fn lemma_ceil_div(x: int, d: int)
    requires
        x >= 0,
        d > 0,
    ensures
        ceil_div(x, d) == x / d + (if x % d == 0 { 0int } else { 1int }),
        x % d != 0 ==> x / d < x || d == 1,
        0 <= x / d <= x,
{
    let q = x / d;
    let r = x % d;
    vstd::arithmetic::div_mod::lemma_fundamental_div_mod(x, d);
    assert(0 <= r < d) by (nonlinear_arith)
        requires
            r == x % d,
            d > 0,
    ;
    assert(q * d == d * q) by (nonlinear_arith);
    if r == 0 {
        assert((x + d - 1) / d == q) by {
            vstd::arithmetic::div_mod::lemma_fundamental_div_mod_converse(x + d - 1, d, q, d - 1);
        }
    } else {
        assert((q + 1) * d == d * q + d) by (nonlinear_arith);
        assert((x + d - 1) / d == q + 1) by {
            vstd::arithmetic::div_mod::lemma_fundamental_div_mod_converse(
                x + d - 1,
                d,
                q + 1,
                r - 1,
            );
        }
    }
    assert(0 <= q) by (nonlinear_arith)
        requires
            q == x / d,
            x >= 0,
            d > 0,
    ;
    assert(q <= d * q) by (nonlinear_arith)
        requires
            q >= 0,
            d >= 1,
    ;
    if r != 0 && d > 1 {
        assert(q < x);
    }
}

} // verus!
