//! Scaling an amount by a ratio, rounded down.
//!
//! Two procedures are offered. [`mul_div`] stays within 64 bits and gives up
//! when the product does not fit. [`mul_div_wide`] forms the product in 128
//! bits and gives up only when the quotient does not fit.

use vstd::prelude::*;

verus! {

/// `floor(a * b / d)` whenever `d > 0` and the product fits in 64 bits.
pub open spec fn checked_mul_div(a: u64, b: u64, d: u64) -> Option<u64> {
    if d == 0 || a * b > u64::MAX {
        None
    } else {
        Some(((a * b) / (d as int)) as u64)
    }
}

/// `floor(a * b / d)` whenever `d > 0` and the quotient fits in 64 bits.
pub open spec fn wide_mul_div(a: u64, b: u64, d: u64) -> Option<u64> {
    if d == 0 || (a * b) / (d as int) > u64::MAX {
        None
    } else {
        Some(((a * b) / (d as int)) as u64)
    }
}

/// The product of two 64-bit numbers fits in 128 bits.
pub proof fn lemma_product_fits_wide(a: u64, b: u64)
    ensures
        0 <= a * b <= u128::MAX,
{
    assert(0 <= a * b <= 0xffff_ffff_ffff_ffff * 0xffff_ffff_ffff_ffff) by (nonlinear_arith)
        requires
            0 <= a <= 0xffff_ffff_ffff_ffff,
            0 <= b <= 0xffff_ffff_ffff_ffff,
    ;
}

/// A part never outweighs the whole: with `b <= d`, `floor(a * b / d) <= a`.
pub proof fn lemma_scaled_part_bounded(a: int, b: int, d: int)
    requires
        0 <= a,
        0 <= b <= d,
        0 < d,
    ensures
        0 <= (a * b) / d <= a,
{
    assert(0 <= a * b <= a * d) by (nonlinear_arith)
        requires
            0 <= a,
            0 <= b <= d,
    ;
    assert((a * b) / d <= (a * d) / d) by {
        vstd::arithmetic::div_mod::lemma_div_is_ordered(a * b, a * d, d);
    }
    lemma_whole_ratio_is_identity(a, d);
    assert(0 <= (a * b) / d) by {
        vstd::arithmetic::div_mod::lemma_div_pos_is_pos(a * b, d);
    }
}

/// Scaling by a ratio of one changes nothing: `floor(a * d / d) == a`.
pub proof fn lemma_whole_ratio_is_identity(a: int, d: int)
    requires
        0 < d,
    ensures
        (a * d) / d == a,
{
    vstd::arithmetic::mul::lemma_mul_is_commutative(a, d);
    vstd::arithmetic::div_mod::lemma_div_multiples_vanish(a, d);
}

/// `a * b / d` rounded down, computed within 64 bits. `None` when `d` is zero
/// or the product overflows.
pub fn mul_div(a: u64, b: u64, d: u64) -> (r: Option<u64>)
    ensures
        r == checked_mul_div(a, b, d),
{
    match a.checked_mul(b) {
        Some(product) => product.checked_div(d),
        None => None,
    }
}

/// `a * b / d` rounded down, with the product formed in 128 bits. `None`
/// when `d` is zero or the quotient does not fit in 64 bits.
pub fn mul_div_wide(a: u64, b: u64, d: u64) -> (r: Option<u64>)
    ensures
        r == wide_mul_div(a, b, d),
{
    if d == 0 {
        return None;
    }
    proof {
        lemma_product_fits_wide(a, b);
    }
    let product: u128 = (a as u128) * (b as u128);
    let quotient: u128 = product / (d as u128);
    if quotient > u64::MAX as u128 {
        None
    } else {
        Some(quotient as u64)
    }
}

} // verus!
