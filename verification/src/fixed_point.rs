//! Fixed-point arithmetic shared by all models of this crate.
//!
//! Every physical value is an `i128` that counts billionths of the SI unit of
//! its quantity: `1_500_000_000` stands for 1.5 T, 1.5 Hz or 1.5 W/kg,
//! depending on where it is used. Products and quotients are rounded towards
//! zero, so that negating an operand negates the result.

use vstd::prelude::*;

verus! {

/// Number of fixed-point steps that make up one unit.
pub const SCALE: i128 = 1_000_000_000;

/// The absolute value of an integer.
pub open spec fn magnitude(a: int) -> int {
    if a < 0 {
        -a
    } else {
        a
    }
}

/// The quotient `a / b` rounded towards zero, for a positive divisor.
pub open spec fn quotient(a: int, b: int) -> int
    recommends
        b > 0,
{
    if a >= 0 {
        a / b
    } else {
        -((-a) / b)
    }
}

/// The fixed-point product of two fixed-point numbers.
pub open spec fn product(a: int, b: int) -> int {
    quotient(a * b, SCALE as int)
}

/// The fixed-point ratio of two fixed-point numbers, for a positive divisor.
pub open spec fn ratio(a: int, b: int) -> int
    recommends
        b > 0,
{
    quotient(a * SCALE, b)
}

/// The magnitude of a product is the product of the magnitudes, so bounds on
/// the factors bound the product.
pub proof fn lemma_product_bound(a: int, b: int, bound_a: int, bound_b: int)
    requires
        magnitude(a) <= bound_a,
        magnitude(b) <= bound_b,
    ensures
        magnitude(a * b) <= bound_a * bound_b,
        -(bound_a * bound_b) <= a * b <= bound_a * bound_b,
{
    assert(magnitude(a * b) <= bound_a * bound_b) by (nonlinear_arith)
        requires
            magnitude(a) <= bound_a,
            magnitude(b) <= bound_b,
    ;
}

/// Rounding towards zero never increases the magnitude, and a larger divisor
/// gives a smaller quotient.
pub proof fn lemma_quotient_bound(a: int, b: int, bound: int)
    requires
        b > 0,
        magnitude(a) <= bound * b,
    ensures
        magnitude(quotient(a, b)) <= bound,
        magnitude(quotient(a, b)) <= magnitude(a),
{
    let m = magnitude(a);
    assert(m / b <= bound && m / b <= m && m / b >= 0) by (nonlinear_arith)
        requires
            b > 0,
            0 <= m <= bound * b,
    ;
}

/// Negating the dividend negates the quotient.
pub proof fn lemma_quotient_odd(a: int, b: int)
    requires
        b > 0,
    ensures
        quotient(-a, b) == -quotient(a, b),
{
    if a == 0 {
        assert(0int / b == 0) by (nonlinear_arith)
            requires
                b > 0,
        ;
    }
}

/// Dividing a multiple of the divisor gives the other factor.
pub proof fn lemma_quotient_of_multiple(a: int, b: int)
    requires
        b > 0,
    ensures
        quotient(a * b, b) == a,
{
    if a >= 0 {
        assert(a * b >= 0 && (a * b) / b == a) by (nonlinear_arith)
            requires
                a >= 0,
                b > 0,
        ;
    } else {
        assert(a * b < 0 && (-(a * b)) / b == -a) by (nonlinear_arith)
            requires
                a < 0,
                b > 0,
        ;
    }
}

/// The fixed-point product with one is the other factor, and that with
/// zero is zero.
pub proof fn lemma_product_unit(a: int)
    ensures
        product(a, SCALE as int) == a,
        product(SCALE as int, a) == a,
        product(a, 0) == 0,
        product(0, a) == 0,
{
    lemma_quotient_of_multiple(a, SCALE as int);
    assert(SCALE * a == a * SCALE) by (nonlinear_arith);
    assert(a * 0 == 0 && 0 * a == 0) by (nonlinear_arith);
}

/// The fixed-point product of two numbers is that of their negations.
pub proof fn lemma_product_of_negations(a: int, b: int)
    ensures
        product(-a, -b) == product(a, b),
{
    assert((-a) * (-b) == a * b) by (nonlinear_arith);
}

/// Negating the dividend negates the fixed-point ratio.
pub proof fn lemma_ratio_odd(a: int, b: int)
    requires
        b > 0,
    ensures
        ratio(-a, b) == -ratio(a, b),
{
    assert((-a) * SCALE == -(a * SCALE)) by (nonlinear_arith);
    lemma_quotient_odd(a * SCALE, b);
}

/// The quotient has the sign of the dividend, or is zero.
pub proof fn lemma_quotient_sign(a: int, b: int)
    requires
        b > 0,
    ensures
        a >= 0 ==> quotient(a, b) >= 0,
        a <= 0 ==> quotient(a, b) <= 0,
{
    let m = magnitude(a);
    assert(m / b >= 0) by (nonlinear_arith)
        requires
            b > 0,
            m >= 0,
    ;
}

/// The fixed-point product of two numbers that are not negative is not
/// negative, and neither is the fixed-point square of any number.
pub proof fn lemma_product_not_negative(a: int, b: int)
    ensures
        a >= 0 && b >= 0 ==> product(a, b) >= 0,
        product(a, a) >= 0,
{
    assert(a >= 0 && b >= 0 ==> a * b >= 0) by (nonlinear_arith);
    assert(a * a >= 0) by (nonlinear_arith);
    lemma_quotient_sign(a * b, SCALE as int);
    lemma_quotient_sign(a * a, SCALE as int);
}

/// The magnitude of a product is the product of the magnitudes.
pub proof fn lemma_magnitude_of_product(a: int, b: int)
    ensures
        magnitude(a * b) == magnitude(a) * magnitude(b),
{
    assert(magnitude(a * b) == magnitude(a) * magnitude(b)) by (nonlinear_arith);
}

/// The quotient times the divisor is off the dividend by less than the
/// divisor.
pub proof fn lemma_quotient_close(a: int, b: int)
    requires
        b > 0,
    ensures
        magnitude(quotient(a, b) * b - a) < b,
{
    let m = magnitude(a);
    assert(0 <= m - (m / b) * b < b) by (nonlinear_arith)
        requires
            b > 0,
            m >= 0,
    ;
    if a < 0 {
        assert((-(m / b)) * b == -((m / b) * b)) by (nonlinear_arith);
    }
}

/// Where one dividend is a multiple of another up to `slack`, the quotient
/// of the first is the same multiple of the quotient of the second, up to
/// the rounding of both and the slack.
pub proof fn lemma_quotients_of_multiples(
    first: int,
    second: int,
    divisor: int,
    factor: int,
    slack: int,
)
    requires
        divisor > 0,
        factor >= 0,
        magnitude(first - factor * second) <= slack,
    ensures
        magnitude(quotient(first, divisor) - factor * quotient(second, divisor)) * divisor < (
        factor + 1) * divisor + slack,
{
    let q1 = quotient(first, divisor);
    let q2 = quotient(second, divisor);
    lemma_quotient_close(first, divisor);
    lemma_quotient_close(second, divisor);
    let e1 = q1 * divisor - first;
    let e2 = q2 * divisor - second;
    assert((q1 - factor * q2) * divisor == (first - factor * second) + e1 - factor * e2)
        by (nonlinear_arith)
        requires
            e1 == q1 * divisor - first,
            e2 == q2 * divisor - second,
    ;
    assert(magnitude(factor * e2) <= factor * divisor) by (nonlinear_arith)
        requires
            factor >= 0,
            magnitude(e2) < divisor,
    ;
    lemma_magnitude_of_product(q1 - factor * q2, divisor);
    assert((factor + 1) * divisor == factor * divisor + divisor) by (nonlinear_arith);
    let scaled = (q1 - factor * q2) * divisor;
    assert(magnitude(scaled) < slack + divisor + factor * divisor);
    assert(magnitude(q1 - factor * q2) * divisor == magnitude(scaled));
}

/// Divides, rounding towards zero.
pub fn divide(a: i128, b: i128) -> (q: i128)
    requires
        b > 0,
    ensures
        q == quotient(a as int, b as int),
{
    a / b
}

/// Multiplies two fixed-point numbers.
pub fn multiply(a: i128, b: i128) -> (p: i128)
    requires
        i128::MIN <= a * b <= i128::MAX,
    ensures
        p == product(a as int, b as int),
{
    divide(a * b, SCALE)
}

/// The magnitude of `a`, or `i128::MAX` where it cannot be represented.
pub open spec fn saturating_magnitude(a: int) -> int {
    if magnitude(a) > i128::MAX {
        i128::MAX as int
    } else {
        magnitude(a)
    }
}

/// The absolute value of `a`; the single value whose negation does not fit
/// is mapped to the largest representable number.
pub fn absolute(a: i128) -> (m: i128)
    ensures
        m == saturating_magnitude(a as int),
        m >= 0,
{
    if a == i128::MIN {
        i128::MAX
    } else if a < 0 {
        -a
    } else {
        a
    }
}

} // verus!
