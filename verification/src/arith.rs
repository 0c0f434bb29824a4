//! Saturating arithmetic on `u128` balances, as the marketplace performs it.

use vstd::prelude::*;

verus! {

/// The mathematical value of `a.saturating_mul(b)` on `u128`.
pub open spec fn sat_mul(a: int, b: int) -> int {
    if a * b > u128::MAX {
        u128::MAX as int
    } else {
        a * b
    }
}

/// The mathematical value of `a.saturating_sub(b)` on an unsigned type.
pub open spec fn sat_sub(a: int, b: int) -> int {
    if a - b < 0 {
        0
    } else {
        a - b
    }
}

/// The larger of two integers.
pub open spec fn max_int(a: int, b: int) -> int {
    if a >= b {
        a
    } else {
        b
    }
}

/// `a.saturating_mul(b)` on `u128`.
pub fn saturating_mul_u128(a: u128, b: u128) -> (r: u128)
    ensures
        r == sat_mul(a as int, b as int),
{
    match a.checked_mul(b) {
        Some(v) => v,
        None => u128::MAX,
    }
}

/// `a.max(b)` on `u128`.
pub fn max_u128(a: u128, b: u128) -> (r: u128)
    ensures
        r == max_int(a as int, b as int),
{
    if a >= b {
        a
    } else {
        b
    }
}

/// Multiplication saturates monotonically in its second argument.
pub proof fn lemma_sat_mul_monotone(a: int, b1: int, b2: int)
    requires
        0 <= a,
        0 <= b1 <= b2,
    ensures
        sat_mul(a, b1) <= sat_mul(a, b2),
{
    assert(a * b1 <= a * b2) by (nonlinear_arith)
        requires
            0 <= a,
            0 <= b1 <= b2,
    ;
}

} // verus!
