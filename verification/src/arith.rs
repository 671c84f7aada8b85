//! 32-bit arithmetic as the machine performs it: computed in the integers,
//! then reduced to 32 bits in two's complement.

use vstd::prelude::*;

verus! {

/// The integer `x` reduced to 32 bits in two's complement: the one `i32`
/// that differs from `x` by a multiple of 2^32.
pub open spec fn wrap(x: int) -> i32 {
    let low = x % 0x1_0000_0000;
    if low >= 0x8000_0000 {
        (low - 0x1_0000_0000) as i32
    } else {
        low as i32
    }
}

/// The distance of `x` from zero.
pub open spec fn magnitude(x: int) -> int {
    if x < 0 {
        -x
    } else {
        x
    }
}

/// The quotient of `a` by `b` rounded toward zero: the quotient of the
/// magnitudes, negative when the signs differ. Meant for `b != 0`.
pub open spec fn quotient_toward_zero(a: int, b: int) -> int {
    if (a < 0) == (b < 0) {
        magnitude(a) / magnitude(b)
    } else {
        -(magnitude(a) / magnitude(b))
    }
}

/// 1 for true, 0 for false.
pub open spec fn flag(holds: bool) -> i32 {
    if holds {
        1
    } else {
        0
    }
}

/// Dividing by a negative number negates the quotient by its magnitude.
proof fn lemma_divide_by_negative(x: int, d: int)
    by (nonlinear_arith)
    requires
        x >= 0,
        d > 0,
    ensures
        x / (-d) == -(x / d),
        0 <= x / d <= x,
        x > 0 && d > 1 ==> x / d < x,
{
}

/// `a + b`, wrapping.
pub fn wrapping_sum(a: i32, b: i32) -> (sum: i32)
    ensures
        sum == wrap(a + b),
{
    a.wrapping_add(b)
}

/// `a - b`, wrapping.
pub fn wrapping_difference(a: i32, b: i32) -> (difference: i32)
    ensures
        difference == wrap(a - b),
{
    a.wrapping_sub(b)
}

/// `a * b`, wrapping.
pub fn wrapping_product(a: i32, b: i32) -> (product: i32)
    ensures
        product == wrap(a * b),
{
    a.wrapping_mul(b)
}

/// `a / b` rounded toward zero, wrapping: the one quotient that does not fit,
/// that of the least `i32` by -1, wraps to the least `i32`.
pub fn wrapping_quotient(a: i32, b: i32) -> (quotient: i32)
    requires
        b != 0,
    ensures
        quotient == wrap(quotient_toward_zero(a as int, b as int)),
{
    proof {
        lemma_divide_by_negative(magnitude(a as int), magnitude(b as int));
    }
    if a == i32::MIN && b == -1 {
        i32::MIN
    } else {
        let q = a / b;
        q
    }
}

} // verus!
