//! Saturating arithmetic on liquidity amounts.
//!
//! Gross liquidity is an unsigned 128-bit quantity, net liquidity a signed
//! one. An event's amount is an unsigned magnitude: it is added to or taken
//! from either as the integer it is, and the result clamps at the bounds of
//! its type.

use vstd::prelude::*;

verus! {

/// `x` clamped into the range of `u128`.
pub open spec fn clamp_u128(x: int) -> int {
    if x < 0 {
        0
    } else if x > u128::MAX {
        u128::MAX as int
    } else {
        x
    }
}

/// `x` clamped into the range of `i128`.
pub open spec fn clamp_i128(x: int) -> int {
    if x < i128::MIN {
        i128::MIN as int
    } else if x > i128::MAX {
        i128::MAX as int
    } else {
        x
    }
}

/// Adds an unsigned amount to a signed one, clamping at the bounds of
/// `i128`.
pub fn saturating_add_amount(x: i128, amount: u128) -> (sum: i128)
    ensures
        sum == clamp_i128(x + amount),
{
    match x.checked_add_unsigned(amount) {
        Some(sum) => sum,
        None => i128::MAX,
    }
}

/// Takes an unsigned amount from a signed one, clamping at the bounds of
/// `i128`.
pub fn saturating_sub_amount(x: i128, amount: u128) -> (difference: i128)
    ensures
        difference == clamp_i128(x - amount),
{
    match x.checked_sub_unsigned(amount) {
        Some(difference) => difference,
        None => i128::MIN,
    }
}

} // verus!
