//! Frequency-response evaluation.
//!
//! A transfer function is a pair of polynomial coefficient vectors (highest
//! order first).  Sampling it at an angular frequency `w` evaluates both
//! polynomials at `s = j*w` by Horner's rule in complex fixed-point
//! arithmetic and returns the magnitude of their ratio.  A zero denominator
//! (or any overflow) surfaces as a non-finite sample, so a frequency sweep
//! can step past a pathological point and continue.

use vstd::prelude::*;

use crate::complex::{cx_add, cx_div, cx_mag2, cx_mul, Complex};
use crate::scalar::{fx_div, fx_mul, fx_sqrt, Scalar, SCALE};

verus! {

/// The coefficients of a rational transfer function in the complex frequency
/// variable, numerator and denominator, highest-order term first.
#[derive(PartialEq, Eq, Debug)]
pub struct BassFnData {
    pub num: Vec<Scalar>,
    pub den: Vec<Scalar>,
}

/// The mathematical content of a coefficient vector.
pub open spec fn coeff_views(v: Seq<Scalar>) -> Seq<Option<int>> {
    v.map_values(|s: Scalar| s@)
}

impl View for BassFnData {
    type V = (Seq<Option<int>>, Seq<Option<int>>);

    open spec fn view(&self) -> (Seq<Option<int>>, Seq<Option<int>>) {
        (coeff_views(self.num@), coeff_views(self.den@))
    }
}

/// Exact model of polynomial evaluation at `j*w` by Horner's rule, highest
/// order coefficient first.
pub open spec fn spec_poly_at(coeffs: Seq<Option<int>>, w: Option<int>) -> (
    Option<int>,
    Option<int>,
)
    decreases coeffs.len(),
{
    if coeffs.len() == 0 {
        (Some(0int), Some(0int))
    } else {
        cx_add(
            cx_mul(spec_poly_at(coeffs.drop_last(), w), (Some(0int), w)),
            (coeffs.last(), Some(0int)),
        )
    }
}

/// Exact model of `bass_fn_point`: the magnitude of the complex ratio of the
/// two polynomial values at `j*w`.
pub open spec fn spec_bass_fn_point(
    data: (Seq<Option<int>>, Seq<Option<int>>),
    w: Option<int>,
) -> Option<int> {
    fx_sqrt(cx_mag2(cx_div(spec_poly_at(data.0, w), spec_poly_at(data.1, w))))
}

/// Evaluate one coefficient vector at `j*w`.
pub fn poly_calc(coeffs: &Vec<Scalar>, w: Scalar) -> (r: Complex)
    ensures
        r@ == spec_poly_at(coeff_views(coeffs@), w@),
{
    let jw = Complex::new(Scalar::zero(), w);
    let mut acc = Complex::zero();
    assert(coeff_views(coeffs@).take(0int) =~= Seq::<Option<int>>::empty());
    let n = coeffs.len();
    let mut i: usize = 0;
    while i < n
        invariant
            n == coeffs.len(),
            i <= n,
            jw@ == (Some(0int), w@),
            acc@ == spec_poly_at(coeff_views(coeffs@).take(i as int), w@),
        decreases n - i,
    {
        acc = acc.mul(jw).add(Complex::new(coeffs[i], Scalar::zero()));
        proof {
            let full = coeff_views(coeffs@);
            assert(full.take(i + 1).drop_last() =~= full.take(i as int));
            assert(full.take(i + 1).last() == full[i as int]);
        }
        i = i + 1;
    }
    proof {
        assert(coeff_views(coeffs@).take(n as int) =~= coeff_views(coeffs@));
    }
    acc
}

/// A single sample of the response curve described by `data`, at angular
/// frequency `w`: the magnitude of numerator over denominator at `j*w`.
/// Non-finite exactly where the exact model is (zero denominator, overflow).
#[allow(non_snake_case)]
pub fn bass_fn_point(data: &BassFnData, w: Scalar) -> (r: Scalar)
    ensures
        r@ == spec_bass_fn_point(data@, w@),
{
    let num = poly_calc(&data.num, w);
    let den = poly_calc(&data.den, w);
    num.div(den).norm_sqr().sqrt()
}

/// The identity transfer function (numerator and denominator both the
/// constant polynomial one) has magnitude one at every finite frequency.
pub proof fn lemma_identity_response(w: Option<int>)
    requires
        w is Some,
    ensures
        spec_bass_fn_point((seq![Some(SCALE as int)], seq![Some(SCALE as int)]), w) == Some(
            SCALE as int,
        ),
{
    let s = SCALE as int;
    let one = seq![Some(s)];
    reveal_with_fuel(spec_poly_at, 3);
    assert(one.drop_last() =~= Seq::<Option<int>>::empty());
    assert(one.last() == Some(s));
    let x = w->Some_0;
    assert(0int * x == 0) by (nonlinear_arith);
    assert(x * 0int == 0) by (nonlinear_arith);
    vstd::arithmetic::div_mod::lemma_div_of0(s);
    assert(0int * 0int == 0int) by (nonlinear_arith);
    assert(s * s == 1_000_000_000_000_000_000_000_000int) by (nonlinear_arith)
        requires
            s == SCALE as int,
    ;
    vstd::arithmetic::div_mod::lemma_div_multiples_vanish(s, s);
    assert(fx_mul(Some(0int), w) == Some(0int));
    assert(fx_mul(Some(0int), Some(0int)) == Some(0int));
    assert(spec_poly_at(Seq::<Option<int>>::empty(), w) == (Some(0int), Some(0int)));
    assert(cx_mul((Some(0int), Some(0int)), (Some(0int), w)) == (Some(0int), Some(0int)));
    assert(spec_poly_at(one, w) == (Some(s), Some(0int)));
    assert(fx_mul(Some(s), Some(s)) == Some(s));
    assert(fx_mul(Some(s), Some(0int)) == Some(0int));
    assert(fx_mul(Some(0int), Some(s)) == Some(0int));
    assert(cx_mag2((Some(s), Some(0int))) == Some(s));
    assert(fx_div(Some(s), Some(s)) == Some(s));
    assert(fx_div(Some(0int), Some(s)) == Some(0int));
    assert(crate::complex::iabs(s) >= crate::complex::iabs(0));
    assert(cx_div((Some(s), Some(0int)), (Some(s), Some(0int))) == (Some(s), Some(0int)));
    assert(s * s <= u128::MAX) by (nonlinear_arith)
        requires
            s == SCALE as int,
    ;
    lemma_sqrt_scale();
}

/// A denominator polynomial that evaluates to zero at `w` yields the
/// non-finite sentinel, never a made-up magnitude: a sweep treats the
/// sample as a gap and continues.
pub proof fn lemma_singular_denominator(
    data: (Seq<Option<int>>, Seq<Option<int>>),
    w: Option<int>,
)
    requires
        spec_poly_at(data.1, w) == (Some(0int), Some(0int)),
    ensures
        spec_bass_fn_point(data, w) is None,
{
    assert(crate::complex::iabs(0) >= crate::complex::iabs(0));
    assert(fx_div(Some(0int), Some(0int)) is None);
    assert(cx_div(spec_poly_at(data.0, w), (Some(0int), Some(0int))) == (
        None::<int>,
        None::<int>,
    ));
}

/// The fixed-point square root of one is one.
proof fn lemma_sqrt_scale()
    ensures
        crate::scalar::sqrt_floor((SCALE as int) * (SCALE as int)) == SCALE as int,
{
    let s = SCALE as int;
    assert(s * s < (s + 1) * (s + 1)) by (nonlinear_arith)
        requires
            s > 0,
    ;
    crate::scalar::lemma_sqrt_floor_unique(s * s, s);
}

} // verus!
