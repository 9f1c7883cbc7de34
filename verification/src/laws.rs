//! System-wide laws of the model.
//!
//! These proofs state properties that span several operations: the slider
//! round trip and the equivalence of transfer-function formulations that
//! differ by a common scale factor.

use vstd::prelude::*;

use vstd::arithmetic::div_mod::{
    lemma_div_is_ordered, lemma_div_multiples_vanish, lemma_div_pos_is_pos,
    lemma_fundamental_div_mod, lemma_mod_bound,
};

use crate::params::{spec_percent_value, spec_to_percent, ParamModel};
use crate::scalar::SCALE;

verus! {

/// The widest bound mantissa the round-trip law covers; it keeps every
/// intermediate product within the mantissa range.
pub const BOUND_LIMIT: i128 = 1_000_000_000_000_000_000_000_000;

/// Bounds round-trip: for a parameter with `min < max` and a value inside
/// the bounds, mapping the value to its slider fraction and back
/// reconstructs it to within one fixed-point step of the span: the
/// reconstruction never overshoots, and it falls short by at most
/// `(max - min) / SCALE + 1` mantissa units.
pub proof fn lemma_percent_round_trip(m: ParamModel, lo: int, hi: int, v: int)
    requires
        m.min == Some(lo),
        m.max == Some(hi),
        m.value == Some(v),
        lo < hi,
        -BOUND_LIMIT <= lo,
        hi <= BOUND_LIMIT,
        lo <= v <= hi,
    ensures
        spec_percent_value(m, spec_to_percent(m)) matches Some(rv) && 0 <= v - rv <= (hi - lo)
            / (SCALE as int) + 1,
{
    let s = SCALE as int;
    let d = hi - lo;
    let u = v - lo;
    assert(0 < d <= 2 * BOUND_LIMIT);
    assert(0 <= u <= d);

    // The forward map: p = (u * S) / d.
    assert(u * s <= d * s && 0 <= u * s && d * s <= 2_000_000_000_000_000_000_000_000_000_000_000_000int)
        by (nonlinear_arith)
        requires
            0 <= u <= d,
            d <= 2 * BOUND_LIMIT,
            s == SCALE as int,
    ;
    let q = (u * s) / d;
    lemma_div_pos_is_pos(u * s, d);
    lemma_div_is_ordered(u * s, d * s, d);
    lemma_div_multiples_vanish(s, d);
    assert(d * s == s * d) by (nonlinear_arith);
    assert(0 <= q <= s);
    assert(spec_to_percent(m) == Some(q));

    // The backward map: rv = lo + (q * d) / s.
    assert(0 <= q * d && q * d <= s * d) by (nonlinear_arith)
        requires
            0 <= q <= s,
            0 < d,
    ;
    assert(s * d <= 2_000_000_000_000_000_000_000_000_000_000_000_000int) by (nonlinear_arith)
        requires
            s == SCALE as int,
            0 < d <= 2 * BOUND_LIMIT,
    ;
    let w = (q * d) / s;
    lemma_div_pos_is_pos(q * d, s);
    assert(0 <= w);

    // w never overshoots u: q * d <= u * s, so w <= (u * s) / s == u.
    lemma_fundamental_div_mod(u * s, d);
    lemma_mod_bound(u * s, d);
    assert(q * d <= u * s) by (nonlinear_arith)
        requires
            u * s == d * q + (u * s) % d,
            0 <= (u * s) % d,
    ;
    lemma_div_is_ordered(q * d, u * s, s);
    lemma_div_multiples_vanish(u, s);
    assert(u * s == s * u) by (nonlinear_arith);
    assert(w <= u);

    // w falls short of u by at most d / s + 1.
    lemma_fundamental_div_mod(q * d, s);
    lemma_mod_bound(q * d, s);
    assert(s * w >= u * s - d - s + 1) by (nonlinear_arith)
        requires
            q * d == s * w + (q * d) % s,
            0 <= (q * d) % s < s,
            u * s == d * q + (u * s) % d,
            0 <= (u * s) % d < d,
    ;
    lemma_fundamental_div_mod(d, s);
    lemma_mod_bound(d, s);
    assert(u - w <= d / s + 1) by (nonlinear_arith)
        requires
            s * w >= u * s - d - s + 1,
            d == s * (d / s) + d % s,
            0 <= d % s < s,
            s == SCALE as int,
    ;

    // Every fixed-point step stays in mantissa range.
    assert(i128::MIN <= u * s <= i128::MAX);
    assert(i128::MIN <= q <= i128::MAX);
    assert(i128::MIN <= q * d <= i128::MAX) by (nonlinear_arith)
        requires
            0 <= q * d <= s * d,
            s * d <= 2_000_000_000_000_000_000_000_000_000_000_000_000int,
    ;
    assert(i128::MIN <= w <= i128::MAX);
    assert(i128::MIN <= lo + w <= i128::MAX);
    assert(spec_percent_value(m, Some(q)) == Some(lo + w));
}

/// The exact complex value of an integer-coefficient polynomial at `j*w`,
/// highest order first, with no rounding: the ideal the fixed-point
/// evaluator approximates.
pub open spec fn exact_poly_at(coeffs: Seq<int>, w: int) -> (int, int)
    decreases coeffs.len(),
{
    if coeffs.len() == 0 {
        (0, 0)
    } else {
        let prev = exact_poly_at(coeffs.drop_last(), w);
        (0 - prev.1 * w + coeffs.last(), prev.0 * w)
    }
}

/// The exact squared magnitude of a polynomial's value at `j*w`.
pub open spec fn exact_mag2(coeffs: Seq<int>, w: int) -> int {
    let z = exact_poly_at(coeffs, w);
    z.0 * z.0 + z.1 * z.1
}

/// A coefficient vector scaled by a common factor.
pub open spec fn scale_coeffs(coeffs: Seq<int>, c: int) -> Seq<int> {
    coeffs.map_values(|x: int| c * x)
}

/// Polynomial evaluation is linear in the coefficients.
proof fn lemma_exact_poly_scale(coeffs: Seq<int>, c: int, w: int)
    ensures
        exact_poly_at(scale_coeffs(coeffs, c), w).0 == c * exact_poly_at(coeffs, w).0,
        exact_poly_at(scale_coeffs(coeffs, c), w).1 == c * exact_poly_at(coeffs, w).1,
    decreases coeffs.len(),
{
    let sc = scale_coeffs(coeffs, c);
    if coeffs.len() == 0 {
        assert(sc.len() == 0);
        assert(exact_poly_at(sc, w) == (0int, 0int));
        assert(exact_poly_at(coeffs, w) == (0int, 0int));
        assert(c * 0int == 0int) by (nonlinear_arith);
    } else {
        assert(sc.len() == coeffs.len());
        assert(sc.drop_last() =~= scale_coeffs(coeffs.drop_last(), c));
        assert(sc.last() == c * coeffs.last());
        lemma_exact_poly_scale(coeffs.drop_last(), c, w);
        let prev = exact_poly_at(coeffs.drop_last(), w);
        let prev_sc = exact_poly_at(sc.drop_last(), w);
        assert(prev_sc.0 == c * prev.0 && prev_sc.1 == c * prev.1);
        assert(exact_poly_at(sc, w).0 == 0 - prev_sc.1 * w + sc.last());
        assert(exact_poly_at(sc, w).1 == prev_sc.0 * w);
        assert(exact_poly_at(coeffs, w).0 == 0 - prev.1 * w + coeffs.last());
        assert(exact_poly_at(coeffs, w).1 == prev.0 * w);
        assert(0 - (c * prev.1) * w + c * coeffs.last() == c * (0 - prev.1 * w + coeffs.last()))
            by (nonlinear_arith);
        assert((c * prev.0) * w == c * (prev.0 * w)) by (nonlinear_arith);
    }
    assert(exact_poly_at(scale_coeffs(coeffs, c), w).0 == c * exact_poly_at(coeffs, w).0);
    assert(exact_poly_at(scale_coeffs(coeffs, c), w).1 == c * exact_poly_at(coeffs, w).1);
}

/// Scaling the coefficients scales the squared magnitude by the square of
/// the factor.
proof fn lemma_exact_mag2_scale(coeffs: Seq<int>, c: int, w: int)
    ensures
        exact_mag2(scale_coeffs(coeffs, c), w) == c * c * exact_mag2(coeffs, w),
{
    lemma_exact_poly_scale(coeffs, c, w);
    let z = exact_poly_at(coeffs, w);
    assert((c * z.0) * (c * z.0) + (c * z.1) * (c * z.1) == c * c * (z.0 * z.0 + z.1 * z.1))
        by (nonlinear_arith);
}

/// Equivalence across derivations: two formulations of one response whose
/// numerator and denominator coefficient vectors differ only by a common
/// nonzero factor have the same magnitude response, stated in exact
/// arithmetic as equality of the magnitude-squared ratios (cross
/// multiplied) at every frequency.
pub proof fn lemma_response_scale_invariant(num: Seq<int>, den: Seq<int>, c: int, w: int)
    ensures
        exact_mag2(scale_coeffs(num, c), w) * exact_mag2(den, w) == exact_mag2(num, w)
            * exact_mag2(scale_coeffs(den, c), w),
{
    lemma_exact_mag2_scale(num, c, w);
    lemma_exact_mag2_scale(den, c, w);
    let mn = exact_mag2(num, w);
    let md = exact_mag2(den, w);
    assert((c * c * mn) * md == mn * (c * c * md)) by (nonlinear_arith);
}

} // verus!
