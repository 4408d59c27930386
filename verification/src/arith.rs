//! Bounded arithmetic on machine integers, stated over mathematical integers.
use vstd::prelude::*;

verus! {

/// The smaller of two integers.
pub open spec fn min_int(a: int, b: int) -> int {
    if a <= b {
        a
    } else {
        b
    }
}

/// The larger of two integers.
pub open spec fn max_int(a: int, b: int) -> int {
    if a >= b {
        a
    } else {
        b
    }
}

/// An integer brought down to the largest `u64` where it is above it.
pub open spec fn cap_u64(value: int) -> int {
    min_int(value, u64::MAX as int)
}

/// What is left of `a` once `b` is taken away, never below zero.
pub open spec fn minus_floor(a: int, b: int) -> int {
    max_int(a - b, 0)
}

/// A sum reduced to the range of `u64`, as a counter that wraps holds it.
#[verifier::opaque]
pub open spec fn wrapped_u64(value: int) -> u64 {
    (value % 0x1_0000_0000_0000_0000) as u64
}

/// What fits is not reduced.
pub proof fn what_fits_is_kept()
    ensures
        forall|value: int| 0 <= value <= u64::MAX ==> #[trigger] wrapped_u64(value) == value,
{
    reveal(wrapped_u64);
}

/// A sum may be reduced on the way.
pub proof fn sums_may_be_reduced(a: int, b: int)
    ensures
        wrapped_u64(wrapped_u64(a) + b) == wrapped_u64(a + b),
{
    reveal(wrapped_u64);
}

/// The quotient of two integers, rounded up.
pub open spec fn ceil_div(a: int, b: int) -> int {
    if a % b == 0 {
        a / b
    } else {
        a / b + 1
    }
}

/// Multiplies, stopping at the largest `u64`.
pub fn saturating_mul_u64(a: u64, b: u64) -> (r: u64)
    ensures
        r == cap_u64(a * b),
{
    match a.checked_mul(b) {
        Some(product) => product,
        None => u64::MAX,
    }
}

/// Adds one counter to another, wrapping at the end of the range.
pub fn wrapping_add_u64(a: u64, b: u64) -> (r: u64)
    ensures
        r == wrapped_u64(a + b),
{
    proof {
        reveal(wrapped_u64);
    }
    a.wrapping_add(b)
}

/// The larger of two counters.
pub fn max_u64(a: u64, b: u64) -> (r: u64)
    ensures
        r == max_int(a as int, b as int),
{
    if a >= b {
        a
    } else {
        b
    }
}

/// Divides, rounding up.
pub fn ceil_div_u64(a: u64, b: u64) -> (r: u64)
    requires
        b > 0,
    ensures
        r == ceil_div(a as int, b as int),
{
    let quotient: u64 = a / b;
    if a % b == 0 {
        quotient
    } else {
        assert(quotient < u64::MAX) by (nonlinear_arith)
            requires
                quotient == a / b,
                a % b != 0,
                b > 0,
                a <= u64::MAX,
        ;
        quotient + 1
    }
}

/// A quotient rounded up is the least integer whose product with the divisor reaches the dividend.
pub proof fn ceil_div_is_least_cover(a: int, b: int)
    requires
        a >= 0,
        b > 0,
    ensures
        ceil_div(a, b) * b >= a,
        a > 0 ==> (ceil_div(a, b) - 1) * b < a,
{
    vstd::arithmetic::div_mod::lemma_fundamental_div_mod(a, b);
    let q = a / b;
    assert((q + 1) * b == q * b + b && (q - 1) * b == q * b - b && b * q == q * b)
        by (nonlinear_arith);
}

} // verus!
