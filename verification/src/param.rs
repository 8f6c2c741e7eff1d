//! Curve parameters as exact fractions, and the interpolation of one
//! coordinate between two neighbours.

use vstd::prelude::*;

verus! {

/// A curve parameter `t = numer / denom`, kept as an exact fraction so that
/// every interpolation step is computed without rounding error before it is
/// truncated to a whole pixel.
///
/// The denominator is never zero. Any value of `t` is admitted: within
/// `0..=1` the parameter walks along the curve, outside of it the curve is
/// extrapolated.
#[derive(Clone, Copy, Debug)]
pub struct Param {
    num: i32,
    den: u32,
}

/// `n / d` rounded toward zero, for a positive `d`.
pub open spec fn trunc_div(n: int, d: int) -> int {
    if n >= 0 {
        n / d
    } else {
        -((-n) / d)
    }
}

/// `v` brought into the range of a coordinate.
pub open spec fn saturate(v: int) -> int {
    if v < i64::MIN {
        i64::MIN as int
    } else if v > i64::MAX {
        i64::MAX as int
    } else {
        v
    }
}

/// The coordinate at `t = num / den` on the way from `a` to `b`:
/// `(1 - t) * a + t * b`, rounded toward zero and kept within the range of a
/// coordinate.
pub open spec fn lerp(a: int, b: int, num: int, den: int) -> int {
    saturate(trunc_div((den - num) * a + num * b, den))
}

impl Param {
    #[verifier::type_invariant]
    spec fn inv(self) -> bool {
        self.den > 0
    }

    /// The numerator of the fraction.
    pub closed spec fn numer(self) -> int {
        self.num as int
    }

    /// The denominator of the fraction.
    pub closed spec fn denom(self) -> int {
        self.den as int
    }

    /// The parameter `num / den`, or nothing when `den` is zero.
    pub fn new(num: i32, den: u32) -> (r: Option<Param>)
        ensures
            den == 0 <==> r is None,
            r matches Some(t) ==> t.numer() == num && t.denom() == den,
    {
        if den == 0 {
            None
        } else {
            Some(Param { num, den })
        }
    }

    /// The numerator of the fraction.
    pub fn numerator(&self) -> (n: i32)
        ensures
            n == self.numer(),
    {
        self.num
    }

    /// The denominator of the fraction, which is positive.
    pub fn denominator(&self) -> (d: u32)
        ensures
            d == self.denom(),
            d > 0,
    {
        proof {
            use_type_invariant(self);
        }
        self.den
    }

    /// Interpolates one coordinate between `a` and `b` at this parameter.
    pub fn interpolate(&self, a: i64, b: i64) -> (r: i64)
        ensures
            r == lerp(a as int, b as int, self.numer(), self.denom()),
    {
        proof {
            use_type_invariant(self);
        }
        let den: i128 = self.den as i128;
        let num: i128 = self.num as i128;
        let rest: i128 = den - num;
        assert(-0x1_8000_0000 * 0x8000_0000_0000_0000 <= rest * (a as i128)
            <= 0x1_8000_0000 * 0x8000_0000_0000_0000) by (nonlinear_arith)
            requires
                -0x1_8000_0000 <= rest <= 0x1_8000_0000,
                -0x8000_0000_0000_0000 <= a < 0x8000_0000_0000_0000,
        ;
        assert(-0x8000_0000 * 0x8000_0000_0000_0000 <= num * (b as i128)
            <= 0x8000_0000 * 0x8000_0000_0000_0000) by (nonlinear_arith)
            requires
                -0x8000_0000 <= num < 0x8000_0000,
                -0x8000_0000_0000_0000 <= b < 0x8000_0000_0000_0000,
        ;
        let sum: i128 = rest * (a as i128) + num * (b as i128);
        let q: i128 = sum / den;
        if q < i64::MIN as i128 {
            i64::MIN
        } else if q > i64::MAX as i128 {
            i64::MAX
        } else {
            q as i64
        }
    }
}

} // verus!
