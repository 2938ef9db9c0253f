//! Integer helpers built on the `num` crate.

use vstd::arithmetic::power::pow;
use vstd::math::abs;
use vstd::prelude::*;

verus! {

/// Raises `base` to the power `exp`.
///
/// Trusted: the body is `num::pow`, which multiplies by repeated squaring.
/// Every product it forms is a power of `base` no larger in magnitude than
/// the final one, so the bound on that power keeps each step within `i64`.
/// The result is the mathematical power, with `pow(0, 0) == 1`.
#[verifier::external_body]
pub(crate) fn power(base: i64, exp: usize) -> (r: i64)
    requires
        pow(abs(base as int) as int, exp as nat) <= i64::MAX,
    ensures
        r == pow(base as int, exp as nat),
{
    num::pow(base, exp)
}

/// Absolute value of `v`.
///
/// Trusted: the body is `num::abs`, which for a signed integer returns the
/// value itself when it is not negative and its negation otherwise. The
/// least `i64` has no negation and is left out.
#[verifier::external_body]
pub(crate) fn magnitude(v: i64) -> (r: i64)
    requires
        v > i64::MIN,
    ensures
        r == abs(v as int),
{
    num::abs(v)
}

/// The cube of an integer.
pub open spec fn spec_cube(v: int) -> int {
    v * v * v
}

/// The cube of a 16-bit integer; it always fits in 64 bits.
pub fn cube(v: i16) -> (r: i64)
    ensures
        r == spec_cube(v as int),
{
    proof {
        lemma_cube_is_third_power(v as int);
        lemma_cube_is_third_power(abs(v as int) as int);
        lemma_cube_bound(abs(v as int) as int, 32768);
    }
    power(v as i64, 3)
}

/// The third power, as `vstd` defines powers, is the cube.
pub proof fn lemma_cube_is_third_power(v: int)
    ensures
        pow(v, 3) == spec_cube(v),
{
    reveal(pow);
    assert(pow(v, 0) == 1);
    assert(pow(v, 1) == v * pow(v, 0));
    assert(pow(v, 2) == v * pow(v, 1));
    assert(pow(v, 3) == v * pow(v, 2));
    assert(v * (v * v) == v * v * v) by (nonlinear_arith);
}

/// Cubing keeps the order of non-negative integers.
pub proof fn lemma_cube_bound(v: int, bound: int)
    requires
        0 <= v <= bound,
    ensures
        0 <= spec_cube(v) <= spec_cube(bound),
{
    assert(0 <= v * v <= bound * bound) by (nonlinear_arith)
        requires
            0 <= v <= bound,
    ;
    assert(0 <= v * v * v <= bound * bound * bound) by (nonlinear_arith)
        requires
            0 <= v <= bound,
            0 <= v * v <= bound * bound,
    ;
}

} // verus!
