//! Saturating arithmetic used for every balance and difficulty computation.
//!
//! All monetary arithmetic in the ledger clamps at the numeric range instead
//! of wrapping or panicking, so that every node replays a block to the same
//! state.

use vstd::prelude::*;

verus! {

/// Mathematical value of a saturating multiplication on `u128`.
pub open spec fn spec_saturating_mul_u128(a: u128, b: u128) -> u128 {
    if a * b > u128::MAX {
        u128::MAX
    } else {
        (a * b) as u128
    }
}

/// `a * b`, clamped to `u128::MAX` on overflow.
pub fn saturating_mul_u128(a: u128, b: u128) -> (r: u128)
    ensures
        r == spec_saturating_mul_u128(a, b),
{
    match a.checked_mul(b) {
        Some(p) => p,
        None => u128::MAX,
    }
}

/// Mathematical value of a saturating addition on `u128`.
pub open spec fn spec_saturating_add_u128(a: u128, b: u128) -> u128 {
    if a + b > u128::MAX {
        u128::MAX
    } else {
        (a + b) as u128
    }
}

/// `a + b`, clamped to `u128::MAX` on overflow.
pub fn saturating_add_u128(a: u128, b: u128) -> (r: u128)
    ensures
        r == spec_saturating_add_u128(a, b),
{
    a.saturating_add(b)
}

/// Mathematical value of a saturating multiplication on `u64`.
pub open spec fn spec_saturating_mul_u64(a: u64, b: u64) -> u64 {
    if a * b > u64::MAX {
        u64::MAX
    } else {
        (a * b) as u64
    }
}

/// `a * b`, clamped to `u64::MAX` on overflow.
pub fn saturating_mul_u64(a: u64, b: u64) -> (r: u64)
    ensures
        r == spec_saturating_mul_u64(a, b),
{
    match a.checked_mul(b) {
        Some(p) => p,
        None => u64::MAX,
    }
}

} // verus!
