//! Saturating and checked arithmetic on token amounts, with the exact value of
//! each operation stated over unbounded integers.

use vstd::prelude::*;

verus! {

/// Basis points that make up one whole.
pub const BASIS_POINTS: u32 = 10000;

/// `a * b`, held at `u128::MAX` when the product does not fit.
pub open spec fn saturating_mul_spec(a: u128, b: u128) -> u128 {
    if a * b > u128::MAX {
        u128::MAX
    } else {
        (a * b) as u128
    }
}

/// `a * b / d`, or `None` when the product does not fit or `d` is zero.
pub open spec fn checked_mul_div_spec(a: u128, b: u128, d: u128) -> Option<u128> {
    if a * b > u128::MAX || d == 0 {
        None
    } else {
        Some(((a * b) / (d as int)) as u128)
    }
}

/// The distance between `a` and `b`.
pub open spec fn abs_diff_spec(a: u128, b: u128) -> u128 {
    if a >= b {
        (a - b) as u128
    } else {
        (b - a) as u128
    }
}

/// Multiplies two amounts, saturating at the numeric bound.
pub fn saturating_mul(a: u128, b: u128) -> (r: u128)
    ensures
        r == saturating_mul_spec(a, b),
{
    match a.checked_mul(b) {
        Some(v) => v,
        None => u128::MAX,
    }
}

/// Multiplies, then divides, reporting overflow and division by zero as `None`.
pub fn checked_mul_div(a: u128, b: u128, d: u128) -> (r: Option<u128>)
    ensures
        r == checked_mul_div_spec(a, b, d),
{
    match a.checked_mul(b) {
        Some(product) => {
            if d == 0 {
                None
            } else {
                Some(product / d)
            }
        },
        None => None,
    }
}

/// The distance between two amounts.
pub fn abs_diff(a: u128, b: u128) -> (r: u128)
    ensures
        r == abs_diff_spec(a, b),
{
    if a >= b {
        a - b
    } else {
        b - a
    }
}

} // verus!
