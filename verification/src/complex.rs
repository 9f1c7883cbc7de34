//! Complex fixed-point arithmetic.
//!
//! Transfer functions are sampled at `s = j*w` on the imaginary axis, so the
//! evaluator needs complex numbers whose parts are [`Scalar`]s.  A complex
//! value is viewed as the pair of its parts' views; non-finite parts absorb
//! through every operation.  Division uses Smith's formulation, which never
//! squares the divisor's parts, so polynomial values far above one can still
//! be divided without leaving the mantissa range.

use vstd::prelude::*;

use crate::scalar::{fx_add, fx_div, fx_mul, fx_sub, Scalar};

verus! {

/// A complex number with fixed-point real and imaginary parts.
#[derive(Clone, Copy, PartialEq, Eq, Structural, Debug)]
pub struct Complex {
    pub re: Scalar,
    pub im: Scalar,
}

impl View for Complex {
    type V = (Option<int>, Option<int>);

    open spec fn view(&self) -> (Option<int>, Option<int>) {
        (self.re@, self.im@)
    }
}

/// The absolute value of a mantissa.
pub open spec fn iabs(x: int) -> int {
    if x < 0 {
        -x
    } else {
        x
    }
}

/// Exact model of complex addition.
pub open spec fn cx_add(a: (Option<int>, Option<int>), b: (Option<int>, Option<int>)) -> (
    Option<int>,
    Option<int>,
) {
    (fx_add(a.0, b.0), fx_add(a.1, b.1))
}

/// Exact model of complex multiplication.
pub open spec fn cx_mul(a: (Option<int>, Option<int>), b: (Option<int>, Option<int>)) -> (
    Option<int>,
    Option<int>,
) {
    (fx_sub(fx_mul(a.0, b.0), fx_mul(a.1, b.1)), fx_add(fx_mul(a.0, b.1), fx_mul(a.1, b.0)))
}

/// Exact model of the squared magnitude.
pub open spec fn cx_mag2(a: (Option<int>, Option<int>)) -> Option<int> {
    fx_add(fx_mul(a.0, a.0), fx_mul(a.1, a.1))
}

/// Exact model of complex division by Smith's formulation: divide through
/// by the larger part of the divisor first, so neither part is squared.
/// Non-finite when the divisor is zero or not finite, or a step overflows.
pub open spec fn cx_div(a: (Option<int>, Option<int>), b: (Option<int>, Option<int>)) -> (
    Option<int>,
    Option<int>,
) {
    match (b.0, b.1) {
        (Some(c), Some(d)) => if iabs(c) >= iabs(d) {
            let t = fx_div(b.1, b.0);
            let den = fx_add(b.0, fx_mul(b.1, t));
            (fx_div(fx_add(a.0, fx_mul(a.1, t)), den), fx_div(fx_sub(a.1, fx_mul(a.0, t)), den))
        } else {
            let t = fx_div(b.0, b.1);
            let den = fx_add(fx_mul(b.0, t), b.1);
            (fx_div(fx_add(fx_mul(a.0, t), a.1), den), fx_div(fx_sub(fx_mul(a.1, t), a.0), den))
        },
        _ => (None, None),
    }
}

/// Whether one mantissa is at least as large as another in absolute value.
fn abs_ge(a: i128, b: i128) -> (r: bool)
    ensures
        r == (iabs(a as int) >= iabs(b as int)),
{
    if a == i128::MIN {
        true
    } else if b == i128::MIN {
        false
    } else {
        let x: i128 = if a < 0 {
            -a
        } else {
            a
        };
        let y: i128 = if b < 0 {
            -b
        } else {
            b
        };
        x >= y
    }
}

impl Complex {
    /// The complex number with the given parts.
    pub fn new(re: Scalar, im: Scalar) -> (r: Complex)
        ensures
            r@ == (re@, im@),
    {
        Complex { re, im }
    }

    /// Complex zero.
    pub fn zero() -> (r: Complex)
        ensures
            r@ == (Some(0int), Some(0int)),
    {
        Complex { re: Scalar::zero(), im: Scalar::zero() }
    }

    /// Complex addition.
    pub fn add(self, other: Complex) -> (r: Complex)
        ensures
            r@ == cx_add(self@, other@),
    {
        Complex { re: self.re.add(other.re), im: self.im.add(other.im) }
    }

    /// Complex multiplication.
    pub fn mul(self, other: Complex) -> (r: Complex)
        ensures
            r@ == cx_mul(self@, other@),
    {
        Complex {
            re: self.re.mul(other.re).sub(self.im.mul(other.im)),
            im: self.re.mul(other.im).add(self.im.mul(other.re)),
        }
    }

    /// The squared magnitude.
    pub fn norm_sqr(self) -> (r: Scalar)
        ensures
            r@ == cx_mag2(self@),
    {
        self.re.mul(self.re).add(self.im.mul(self.im))
    }

    /// Complex division.
    pub fn div(self, other: Complex) -> (r: Complex)
        ensures
            r@ == cx_div(self@, other@),
    {
        match (other.re, other.im) {
            (Scalar::Finite(c), Scalar::Finite(d)) => {
                if abs_ge(c, d) {
                    let t = other.im.div(other.re);
                    let den = other.re.add(other.im.mul(t));
                    Complex {
                        re: self.re.add(self.im.mul(t)).div(den),
                        im: self.im.sub(self.re.mul(t)).div(den),
                    }
                } else {
                    let t = other.re.div(other.im);
                    let den = other.re.mul(t).add(other.im);
                    Complex {
                        re: self.re.mul(t).add(self.im).div(den),
                        im: self.im.mul(t).sub(self.re).div(den),
                    }
                }
            },
            _ => Complex { re: Scalar::NonFinite, im: Scalar::NonFinite },
        }
    }
}

} // verus!
