//! The transfer-function assembler.
//!
//! Equations from "Complete Response Function and System Parameters for a
//! Loudspeaker with Passive Radiator" by Douglas H. Hurlburt.
//!
//! Four response variants, each a pure function of the current parameter
//! values producing five numerator and five denominator coefficients
//! (orders four down to zero, unused high orders zero-padded).  All share
//! the fourth-order denominator built from the driver and radiator time
//! constants, the mechanical quality factors and the two enclosure-coupling
//! ratios.  The leakage-time-constant ratio is a model constant, not an
//! input.

use vstd::prelude::*;

use crate::equations::{lit, pi_lit, sq};
use crate::evaluate::{coeff_views, BassFnData};
use crate::params::{
    vals, ParamModel, Parameters, IDX_ALPHA, IDX_BL, IDX_C, IDX_DELTA, IDX_MAS, IDX_QES, IDX_QMP, IDX_QMS,
    IDX_QS, IDX_RE, IDX_RHO0, IDX_SD, IDX_TB, IDX_TP, IDX_TS, IDX_Y,
};
use crate::scalar::{fx_add, fx_div, fx_mul, fx_sqrt, Scalar};

verus! {

/// The assumed leakage-time-constant ratio (box over driver time constant):
/// a model constant, not a user parameter.
pub const LEAKAGE_RATIO_RAW: i128 = 200_000_000_000;

/// The fourth root of the leakage ratio, fixed numerically as the Hurlburt
/// formulation tabulates it.
pub const LEAKAGE_RATIO_ROOT4_RAW: i128 = 668_740_304_970;

/// The leakage ratio as a value.
pub open spec fn g_lit() -> Option<int> {
    Some(LEAKAGE_RATIO_RAW as int)
}

/// The fourth root of the leakage ratio as a value.
pub open spec fn g4_lit() -> Option<int> {
    Some(LEAKAGE_RATIO_ROOT4_RAW as int)
}

/// x to the power three quarters: the square root of x times its square
/// root.
pub open spec fn pow34(x: Option<int>) -> Option<int> {
    fx_sqrt(fx_mul(x, fx_sqrt(x)))
}

/// The total compliance ratio `alpha + delta + 1`.
pub open spec fn spec_psi(v: Seq<Option<int>>) -> Option<int> {
    fx_add(fx_add(v[IDX_ALPHA as int], v[IDX_DELTA as int]), lit(1))
}

// Coefficients of the normalized (compliance-ratio) radiator response.
pub open spec fn rad_a1(v: Seq<Option<int>>) -> Option<int> {
    let y = v[IDX_Y as int];
    let y2 = fx_sqrt(y);
    fx_mul(
        fx_div(y2, g4_lit()),
        fx_add(
            fx_add(fx_div(lit(1), v[IDX_QMP as int]), fx_div(lit(1), fx_mul(y, v[IDX_QS as int]))),
            fx_mul(
                g_lit(),
                fx_add(fx_div(v[IDX_ALPHA as int], y), fx_mul(y, v[IDX_DELTA as int])),
            ),
        ),
    )
}

pub open spec fn rad_a2(v: Seq<Option<int>>) -> Option<int> {
    let y = v[IDX_Y as int];
    let alpha = v[IDX_ALPHA as int];
    let delta = v[IDX_DELTA as int];
    fx_mul(
        fx_div(lit(1), fx_sqrt(spec_psi(v))),
        fx_add(
            fx_add(
                fx_add(
                    fx_div(fx_add(alpha, lit(1)), y),
                    fx_mul(y, fx_add(delta, lit(1))),
                ),
                fx_div(lit(1), fx_mul(v[IDX_QMP as int], v[IDX_QS as int])),
            ),
            fx_mul(
                g_lit(),
                fx_add(
                    fx_div(alpha, v[IDX_QMP as int]),
                    fx_mul(y, fx_div(delta, v[IDX_QS as int])),
                ),
            ),
        ),
    )
}

pub open spec fn rad_a3(v: Seq<Option<int>>) -> Option<int> {
    let y = v[IDX_Y as int];
    let alpha = v[IDX_ALPHA as int];
    let delta = v[IDX_DELTA as int];
    fx_mul(
        fx_div(fx_sqrt(y), pow34(spec_psi(v))),
        fx_add(
            fx_add(
                fx_div(fx_add(delta, lit(1)), v[IDX_QS as int]),
                fx_div(fx_add(alpha, lit(1)), fx_mul(y, v[IDX_QMP as int])),
            ),
            fx_mul(g_lit(), fx_add(alpha, delta)),
        ),
    )
}

pub open spec fn rad_b1(v: Seq<Option<int>>) -> Option<int> {
    fx_div(fx_sqrt(v[IDX_Y as int]), fx_mul(v[IDX_QMP as int], g4_lit()))
}

pub open spec fn rad_b2(v: Seq<Option<int>>) -> Option<int> {
    fx_div(v[IDX_Y as int], fx_sqrt(spec_psi(v)))
}

pub open spec fn spec_radiator_num(v: Seq<Option<int>>) -> Seq<Option<int>> {
    seq![lit(1), rad_b1(v), rad_b2(v), Some(0int), Some(0int)]
}

pub open spec fn spec_radiator_den(v: Seq<Option<int>>) -> Seq<Option<int>> {
    seq![lit(1), rad_a1(v), rad_a2(v), rad_a3(v), lit(1)]
}

// Shared denominator coefficients of the time-constant formulations.
pub open spec fn den_a4(v: Seq<Option<int>>) -> Option<int> {
    fx_mul(sq(v[IDX_TS as int]), sq(v[IDX_TP as int]))
}

pub open spec fn den_a3(v: Seq<Option<int>>) -> Option<int> {
    let ts = v[IDX_TS as int];
    let tp = v[IDX_TP as int];
    fx_add(
        fx_div(fx_mul(sq(ts), tp), v[IDX_QMP as int]),
        fx_mul(
            fx_mul(g_lit(), ts),
            fx_add(fx_mul(v[IDX_ALPHA as int], sq(tp)), fx_mul(v[IDX_DELTA as int], sq(ts))),
        ),
    )
}

/// The second-order denominator term, parameterized by the quality factor
/// that divides the driver terms (`Qs` for the responses, `Qms` for the
/// impedance).
pub open spec fn den_a2_q(v: Seq<Option<int>>, q: Option<int>) -> Option<int> {
    let ts = v[IDX_TS as int];
    let tp = v[IDX_TP as int];
    fx_add(
        fx_add(
            fx_add(
                fx_mul(sq(tp), fx_add(v[IDX_ALPHA as int], lit(1))),
                fx_mul(sq(ts), fx_add(v[IDX_DELTA as int], lit(1))),
            ),
            fx_div(fx_mul(ts, tp), fx_mul(v[IDX_QS as int], v[IDX_QMP as int])),
        ),
        fx_mul(
            fx_mul(g_lit(), ts),
            fx_add(
                fx_div(fx_mul(v[IDX_ALPHA as int], tp), v[IDX_QMP as int]),
                fx_div(fx_mul(v[IDX_DELTA as int], ts), q),
            ),
        ),
    )
}

/// The first-order denominator term, parameterized the same way.
pub open spec fn den_a1_q(v: Seq<Option<int>>, q: Option<int>) -> Option<int> {
    let ts = v[IDX_TS as int];
    let tp = v[IDX_TP as int];
    fx_add(
        fx_add(
            fx_div(fx_mul(ts, fx_add(v[IDX_DELTA as int], lit(1))), q),
            fx_div(fx_mul(tp, fx_add(v[IDX_ALPHA as int], lit(1))), v[IDX_QMP as int]),
        ),
        fx_mul(fx_mul(g_lit(), ts), fx_add(v[IDX_ALPHA as int], v[IDX_DELTA as int])),
    )
}

pub open spec fn spec_response_den(v: Seq<Option<int>>) -> Seq<Option<int>> {
    seq![
        den_a4(v),
        den_a3(v),
        den_a2_q(v, v[IDX_QS as int]),
        den_a1_q(v, v[IDX_QS as int]),
        spec_psi(v),
    ]
}

pub open spec fn spec_radiator_alt_num(v: Seq<Option<int>>) -> Seq<Option<int>> {
    seq![
        fx_mul(sq(v[IDX_TS as int]), sq(v[IDX_TP as int])),
        fx_mul(sq(v[IDX_TS as int]), fx_div(v[IDX_TP as int], v[IDX_QMP as int])),
        sq(v[IDX_TS as int]),
        Some(0int),
        Some(0int),
    ]
}

pub open spec fn spec_driver_num(v: Seq<Option<int>>) -> Seq<Option<int>> {
    seq![
        Some(0int),
        Some(0int),
        fx_mul(spec_psi(v), sq(v[IDX_TB as int])),
        Some(0int),
        spec_psi(v),
    ]
}

pub open spec fn spec_passive_num(v: Seq<Option<int>>) -> Seq<Option<int>> {
    seq![Some(0int), Some(0int), Some(0int), Some(0int), spec_psi(v)]
}

pub open spec fn spec_impedance_num(v: Seq<Option<int>>) -> Seq<Option<int>> {
    seq![
        Some(0int),
        fx_div(fx_mul(fx_mul(spec_psi(v), sq(v[IDX_TB as int])), v[IDX_TS as int]), v[IDX_QES as int]),
        Some(0int),
        fx_div(fx_mul(spec_psi(v), v[IDX_TS as int]), v[IDX_QES as int]),
        spec_psi(v),
    ]
}

pub open spec fn spec_impedance_den(v: Seq<Option<int>>) -> Seq<Option<int>> {
    seq![
        den_a4(v),
        den_a3(v),
        den_a2_q(v, v[IDX_QMS as int]),
        den_a1_q(v, v[IDX_QMS as int]),
        spec_psi(v),
    ]
}

// (tesla m)^2 * (kg/m^3) / (cm^4 * (g/cm^4)^2 * (m/s) * ohm) = 1
pub open spec fn spec_efficiency_adams(v: Seq<Option<int>>) -> Option<int> {
    fx_div(
        fx_mul(sq(v[IDX_BL as int]), v[IDX_RHO0 as int]),
        fx_mul(
            fx_mul(
                fx_mul(fx_mul(fx_mul(sq(v[IDX_SD as int]), sq(v[IDX_MAS as int])), lit(2)), pi_lit()),
                v[IDX_C as int],
            ),
            v[IDX_RE as int],
        ),
    )
}

/// The leakage ratio as a scalar.
fn g_scalar() -> (r: Scalar)
    ensures
        r@ == g_lit(),
{
    Scalar::from_raw(LEAKAGE_RATIO_RAW)
}

/// The fourth root of the leakage ratio as a scalar.
fn g4_scalar() -> (r: Scalar)
    ensures
        r@ == g4_lit(),
{
    Scalar::from_raw(LEAKAGE_RATIO_ROOT4_RAW)
}

/// The current value of a parameter.
fn val(p: &Parameters, i: usize) -> (r: Scalar)
    requires
        p.well_sized(),
        i < crate::params::N_PARAMS,
    ensures
        r@ == vals(p@)[i as int],
{
    crate::equations::val(p, i)
}

/// `alpha + delta + 1`.
fn psi(p: &Parameters) -> (r: Scalar)
    requires
        p.well_sized(),
    ensures
        r@ == spec_psi(vals(p@)),
{
    val(p, IDX_ALPHA).add(val(p, IDX_DELTA)).add(Scalar::one())
}

/// The acoustic radiator response in the normalized compliance-ratio
/// formulation: fourth-order denominator over the tuning ratio `y`, the
/// quality factors and the coupling ratios.
#[allow(non_snake_case)]
pub fn Radiator(p: &Parameters) -> (r: BassFnData)
    requires
        p.well_sized(),
    ensures
        coeff_views(r.num@) == spec_radiator_num(vals(p@)),
        coeff_views(r.den@) == spec_radiator_den(vals(p@)),
{
    let g = g_scalar();
    let g25 = g4_scalar();
    let alpha = val(p, IDX_ALPHA);
    let delta = val(p, IDX_DELTA);
    let psi = psi(p);
    let y = val(p, IDX_Y);
    let y2 = y.sqrt();
    let qmp = val(p, IDX_QMP);
    let qs = val(p, IDX_QS);

    let a1 = y2.div(g25).mul(
        Scalar::one().div(qmp).add(Scalar::one().div(y.mul(qs))).add(
            g.mul(alpha.div(y).add(y.mul(delta))),
        ),
    );
    let a2 = Scalar::one().div(psi.sqrt()).mul(
        alpha.add(Scalar::one()).div(y).add(y.mul(delta.add(Scalar::one()))).add(
            Scalar::one().div(qmp.mul(qs)),
        ).add(g.mul(alpha.div(qmp).add(y.mul(delta.div(qs))))),
    );
    let a3 = y2.div(psi.mul(psi.sqrt()).sqrt()).mul(
        delta.add(Scalar::one()).div(qs).add(alpha.add(Scalar::one()).div(y.mul(qmp))).add(
            g.mul(alpha.add(delta)),
        ),
    );
    let b1 = y2.div(qmp.mul(g25));
    let b2 = y.div(psi.sqrt());

    let r = BassFnData {
        num: vec![Scalar::one(), b1, b2, Scalar::zero(), Scalar::zero()],
        den: vec![Scalar::one(), a1, a2, a3, Scalar::one()],
    };
    proof {
        assert(coeff_views(r.num@) =~= spec_radiator_num(vals(p@)));
        assert(coeff_views(r.den@) =~= spec_radiator_den(vals(p@)));
    }
    r
}

/// The same radiator response in the time-constant formulation: raw driver
/// and radiator time constants, no normalization.
#[allow(non_snake_case)]
pub fn RadiatorAlt(p: &Parameters) -> (r: BassFnData)
    requires
        p.well_sized(),
    ensures
        coeff_views(r.num@) == spec_radiator_alt_num(vals(p@)),
        coeff_views(r.den@) == spec_response_den(vals(p@)),
{
    let g = g_scalar();
    let ts = val(p, IDX_TS);
    let ts2 = ts.mul(ts);
    let tp = val(p, IDX_TP);
    let tp2 = tp.mul(tp);
    let alpha = val(p, IDX_ALPHA);
    let delta = val(p, IDX_DELTA);
    let psi = psi(p);
    let qmp = val(p, IDX_QMP);
    let qs = val(p, IDX_QS);

    let b4 = ts2.mul(tp2);
    let b3 = ts2.mul(tp.div(qmp));
    let b2 = ts2;
    let a4 = ts2.mul(tp2);
    let a3 = ts2.mul(tp).div(qmp).add(g.mul(ts).mul(alpha.mul(tp2).add(delta.mul(ts2))));
    let a2 = tp2.mul(alpha.add(Scalar::one())).add(ts2.mul(delta.add(Scalar::one()))).add(
        ts.mul(tp).div(qs.mul(qmp)),
    ).add(g.mul(ts).mul(alpha.mul(tp).div(qmp).add(delta.mul(ts).div(qs))));
    let a1 = ts.mul(delta.add(Scalar::one())).div(qs).add(
        tp.mul(alpha.add(Scalar::one())).div(qmp),
    ).add(g.mul(ts).mul(alpha.add(delta)));

    let r = BassFnData {
        num: vec![b4, b3, b2, Scalar::zero(), Scalar::zero()],
        den: vec![a4, a3, a2, a1, psi],
    };
    proof {
        assert(coeff_views(r.num@) =~= spec_radiator_alt_num(vals(p@)));
        assert(coeff_views(r.den@) =~= spec_response_den(vals(p@)));
    }
    r
}

/// The driver cone displacement response: the shared denominator with a
/// numerator isolating the direct driver motion.
#[allow(non_snake_case)]
pub fn DriverDisplacement(p: &Parameters) -> (r: BassFnData)
    requires
        p.well_sized(),
    ensures
        coeff_views(r.num@) == spec_driver_num(vals(p@)),
        coeff_views(r.den@) == spec_response_den(vals(p@)),
{
    let g = g_scalar();
    let ts = val(p, IDX_TS);
    let ts2 = ts.mul(ts);
    let tp = val(p, IDX_TP);
    let tp2 = tp.mul(tp);
    let tb = val(p, IDX_TB);
    let tb2 = tb.mul(tb);
    let alpha = val(p, IDX_ALPHA);
    let delta = val(p, IDX_DELTA);
    let psi = psi(p);
    let qmp = val(p, IDX_QMP);
    let qs = val(p, IDX_QS);

    let b2 = psi.mul(tb2);
    let a4 = ts2.mul(tp2);
    let a3 = ts2.mul(tp).div(qmp).add(g.mul(ts).mul(alpha.mul(tp2).add(delta.mul(ts2))));
    let a2 = tp2.mul(alpha.add(Scalar::one())).add(ts2.mul(delta.add(Scalar::one()))).add(
        ts.mul(tp).div(qs.mul(qmp)),
    ).add(g.mul(ts).mul(alpha.mul(tp).div(qmp).add(delta.mul(ts).div(qs))));
    let a1 = ts.mul(delta.add(Scalar::one())).div(qs).add(
        tp.mul(alpha.add(Scalar::one())).div(qmp),
    ).add(g.mul(ts).mul(alpha.add(delta)));

    let r = BassFnData {
        num: vec![Scalar::zero(), Scalar::zero(), b2, Scalar::zero(), psi],
        den: vec![a4, a3, a2, a1, psi],
    };
    proof {
        assert(coeff_views(r.num@) =~= spec_driver_num(vals(p@)));
        assert(coeff_views(r.den@) =~= spec_response_den(vals(p@)));
    }
    r
}

/// The passive radiator displacement response: the shared denominator with
/// a constant-order numerator.
#[allow(non_snake_case)]
pub fn PassiveDisplacement(p: &Parameters) -> (r: BassFnData)
    requires
        p.well_sized(),
    ensures
        coeff_views(r.num@) == spec_passive_num(vals(p@)),
        coeff_views(r.den@) == spec_response_den(vals(p@)),
{
    let g = g_scalar();
    let ts = val(p, IDX_TS);
    let ts2 = ts.mul(ts);
    let tp = val(p, IDX_TP);
    let tp2 = tp.mul(tp);
    let alpha = val(p, IDX_ALPHA);
    let delta = val(p, IDX_DELTA);
    let psi = psi(p);
    let qmp = val(p, IDX_QMP);
    let qs = val(p, IDX_QS);

    let a4 = ts2.mul(tp2);
    let a3 = ts2.mul(tp).div(qmp).add(g.mul(ts).mul(alpha.mul(tp2).add(delta.mul(ts2))));
    let a2 = tp2.mul(alpha.add(Scalar::one())).add(ts2.mul(delta.add(Scalar::one()))).add(
        ts.mul(tp).div(qs.mul(qmp)),
    ).add(g.mul(ts).mul(alpha.mul(tp).div(qmp).add(delta.mul(ts).div(qs))));
    let a1 = ts.mul(delta.add(Scalar::one())).div(qs).add(
        tp.mul(alpha.add(Scalar::one())).div(qmp),
    ).add(g.mul(ts).mul(alpha.add(delta)));

    let r = BassFnData {
        num: vec![Scalar::zero(), Scalar::zero(), Scalar::zero(), Scalar::zero(), psi],
        den: vec![a4, a3, a2, a1, psi],
    };
    proof {
        assert(coeff_views(r.num@) =~= spec_passive_num(vals(p@)));
        assert(coeff_views(r.den@) =~= spec_response_den(vals(p@)));
    }
    r
}

/// The electrical impedance response: back-EMF coupling terms scaled by the
/// electromagnetic coupling coefficient and the driver time constant, over
/// the shared denominator with the mechanical quality factor.
#[allow(non_snake_case)]
pub fn Impedance(p: &Parameters) -> (r: BassFnData)
    requires
        p.well_sized(),
    ensures
        coeff_views(r.num@) == spec_impedance_num(vals(p@)),
        coeff_views(r.den@) == spec_impedance_den(vals(p@)),
{
    let g = g_scalar();
    let alpha = val(p, IDX_ALPHA);
    let delta = val(p, IDX_DELTA);
    let psi = psi(p);
    let qs = val(p, IDX_QS);
    let qms = val(p, IDX_QMS);
    let qes = val(p, IDX_QES);
    let qmp = val(p, IDX_QMP);
    let tb = val(p, IDX_TB);
    let tb2 = tb.mul(tb);
    let tp = val(p, IDX_TP);
    let tp2 = tp.mul(tp);
    let ts = val(p, IDX_TS);
    let ts2 = ts.mul(ts);

    let b3 = psi.mul(tb2).mul(ts).div(qes);
    let b1 = psi.mul(ts).div(qes);
    let a4 = ts2.mul(tp2);
    let a3 = ts2.mul(tp).div(qmp).add(g.mul(ts).mul(alpha.mul(tp2).add(delta.mul(ts2))));
    let a2 = tp2.mul(alpha.add(Scalar::one())).add(ts2.mul(delta.add(Scalar::one()))).add(
        ts.mul(tp).div(qs.mul(qmp)),
    ).add(g.mul(ts).mul(alpha.mul(tp).div(qmp).add(delta.mul(ts).div(qms))));
    let a1 = ts.mul(delta.add(Scalar::one())).div(qms).add(
        tp.mul(alpha.add(Scalar::one())).div(qmp),
    ).add(g.mul(ts).mul(alpha.add(delta)));

    let r = BassFnData {
        num: vec![Scalar::zero(), b3, Scalar::zero(), b1, psi],
        den: vec![a4, a3, a2, a1, psi],
    };
    proof {
        assert(coeff_views(r.num@) =~= spec_impedance_num(vals(p@)));
        assert(coeff_views(r.den@) =~= spec_impedance_den(vals(p@)));
    }
    r
}

/// The reference efficiency by the Adams formulation.
#[allow(non_snake_case)]
pub fn EfficencyAdams(p: &Parameters) -> (r: Scalar)
    requires
        p.well_sized(),
    ensures
        r@ == spec_efficiency_adams(vals(p@)),
{
    let c = val(p, IDX_C);
    let rho0 = val(p, IDX_RHO0);
    let re = val(p, IDX_RE);
    let sd = val(p, IDX_SD);
    let bl = val(p, IDX_BL);
    let mas = val(p, IDX_MAS);

    bl.mul(bl).mul(rho0).div(
        sd.mul(sd).mul(mas.mul(mas)).mul(Scalar::from_int(2)).mul(crate::equations::pi()).mul(
            c,
        ).mul(re),
    )
}

/// Determinism: each assembler's output is a function of the parameter
/// values alone, so repeated calls on an unchanged parameter set return
/// identical coefficient sequences.
pub proof fn lemma_assemblers_deterministic(a: Seq<ParamModel>, b: Seq<ParamModel>)
    requires
        vals(a) == vals(b),
    ensures
        spec_radiator_num(vals(a)) == spec_radiator_num(vals(b)),
        spec_radiator_den(vals(a)) == spec_radiator_den(vals(b)),
        spec_radiator_alt_num(vals(a)) == spec_radiator_alt_num(vals(b)),
        spec_response_den(vals(a)) == spec_response_den(vals(b)),
        spec_driver_num(vals(a)) == spec_driver_num(vals(b)),
        spec_passive_num(vals(a)) == spec_passive_num(vals(b)),
        spec_impedance_num(vals(a)) == spec_impedance_num(vals(b)),
        spec_impedance_den(vals(a)) == spec_impedance_den(vals(b)),
        spec_efficiency_adams(vals(a)) == spec_efficiency_adams(vals(b)),
{
}

} // verus!
