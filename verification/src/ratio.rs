//! Exact fractions of 128-bit integers.

use vstd::prelude::*;

verus! {

/// The fraction `num / den`.
///
/// A well-formed ratio has a positive denominator, so the sign of its value
/// is the sign of its numerator. Ratios are not reduced: `1 / 2` and `2 / 4`
/// are different representations of one value.
#[derive(Clone, Copy, Debug, PartialEq, Eq, Structural)]
pub struct Ratio {
    pub num: i128,
    pub den: i128,
}

impl Ratio {
    /// The denominator is positive.
    pub open spec fn wf(self) -> bool {
        self.den > 0
    }

    /// The representation of `n / d` that carries the sign in the numerator.
    ///
    /// It is meant for `d != 0` and for `n` and `d` whose magnitudes fit in
    /// 128 bits; `is_quotient` then holds of it (`lemma_of_is_quotient`).
    pub open spec fn of(n: int, d: int) -> Ratio {
        if d >= 0 {
            Ratio { num: n as i128, den: d as i128 }
        } else {
            Ratio { num: (-n) as i128, den: (-d) as i128 }
        }
    }

    /// This ratio is well formed and its value is that of `n / d`.
    pub open spec fn is_quotient(self, n: int, d: int) -> bool {
        &&& self.den > 0
        &&& d != 0
        &&& self.num * d == n * self.den
    }

    /// This ratio is well formed and its value is the integer `n`.
    pub open spec fn is_integer(self, n: int) -> bool {
        self.is_quotient(n, 1)
    }

    /// The magnitude of the value is at most one.
    pub open spec fn within_unit(self) -> bool {
        -self.den <= self.num <= self.den
    }

    /// Builds the ratio `n / d`, moving the sign of `d` into the numerator.
    pub fn quotient(n: i128, d: i128) -> (r: Ratio)
        requires
            d != 0,
            n > i128::MIN,
            d > i128::MIN,
        ensures
            r == Ratio::of(n as int, d as int),
            r.is_quotient(n as int, d as int),
    {
        proof {
            Ratio::lemma_of_is_quotient(n as int, d as int);
        }
        if d > 0 {
            Ratio { num: n, den: d }
        } else {
            Ratio { num: -n, den: -d }
        }
    }

    /// Where `n` and `d` fit, `of(n, d)` is well formed and has the value of
    /// `n / d`.
    pub proof fn lemma_of_is_quotient(n: int, d: int)
        requires
            d != 0,
            i128::MIN < n <= i128::MAX,
            i128::MIN < d <= i128::MAX,
        ensures
            Ratio::of(n, d).is_quotient(n, d),
            Ratio::of(n, d).num == (if d > 0 { n } else { -n }),
            Ratio::of(n, d).den == (if d > 0 { d } else { -d }),
    {
        if d < 0 {
            assert((-n) * d == n * (-d)) by (nonlinear_arith);
        }
    }

    /// A quotient of equal terms is the integer one, and more generally a
    /// quotient whose numerator is `k` times its denominator is `k`.
    pub proof fn lemma_quotient_of_multiple(self, k: int, d: int)
        requires
            self.is_quotient(k * d, d),
        ensures
            self.is_integer(k),
    {
        assert(self.num * 1 == k * self.den) by (nonlinear_arith)
            requires
                self.num * d == (k * d) * self.den,
                d != 0,
        ;
    }
}

} // verus!
