//! The equation library.
//!
//! Each derived parameter is recomputed by one pure formula over the current
//! parameter values.  Every formula is dimensionally annotated: the unit
//! conversion constants (cm^2 to m^2 and the like) are baked in, and the
//! contract is exact over the fixed-point model.  `Equation` tags the
//! formula; `eq_reads` lists exactly which parameters it reads, which is
//! what makes the recomputation pass provably a fixed point.

use vstd::prelude::*;

use crate::params::{vals, Parameters, N_PARAMS};
use crate::params::{
    IDX_BL, IDX_C, IDX_CAB, IDX_CAP, IDX_CAS, IDX_CMP, IDX_CMS, IDX_FB, IDX_FP, IDX_FS, IDX_MAP,
    IDX_MAS, IDX_MMD, IDX_MMP, IDX_MMS, IDX_QES, IDX_QMS, IDX_QTS, IDX_RAP, IDX_RAS, IDX_RE,
    IDX_RHO0, IDX_RMP, IDX_RMS, IDX_SD, IDX_SP, IDX_VAS, IDX_WP, IDX_WS, IDX_XMAX,
};
use crate::scalar::{fx_add, fx_div, fx_mul, fx_sqrt, Scalar, SCALE};

verus! {

/// The fixed-point mantissa of pi.
pub const PI_RAW: i128 = 3_141_592_653_590;

/// The fixed-point mantissa of two pi.
pub const PI2_RAW: i128 = 6_283_185_307_180;

/// The tag of one derivation formula, named after the parameter it derives.
#[derive(Clone, Copy, PartialEq, Eq, Structural, Debug)]
pub enum Equation {
    Vd,
    Mms,
    Mas,
    Ras,
    Cas,
    Vas,
    Ts,
    Ws,
    Fs,
    Qes,
    Qms,
    Qts,
    Qs,
    Vb,
    Vap,
    Cap,
    Rap,
    Mp,
    Qmp,
    Wp,
    Fp,
    Tp,
    Wb,
    Fb,
    Tb,
    Alpha,
    Delta,
    Y,
    H,
    Eta0,
}

/// The fixed-point value of a small integer literal.
pub open spec fn lit(i: int) -> Option<int> {
    Some(i * (SCALE as int))
}

/// The fixed-point value of pi.
pub open spec fn pi_lit() -> Option<int> {
    Some(PI_RAW as int)
}

/// The fixed-point value of two pi.
pub open spec fn pi2_lit() -> Option<int> {
    Some(PI2_RAW as int)
}

/// The square of a value.
pub open spec fn sq(x: Option<int>) -> Option<int> {
    fx_mul(x, x)
}

/// The cube of a value.
pub open spec fn cube(x: Option<int>) -> Option<int> {
    fx_mul(fx_mul(x, x), x)
}

// 10000 * cm^2 * mm = L
pub open spec fn spec_vd(v: Seq<Option<int>>) -> Option<int> {
    fx_mul(fx_mul(lit(10000), v[IDX_SD as int]), v[IDX_XMAX as int])
}

// g + 1000 * ((kg / m^3) / sqrt(cm^2)) * cm^4 = g
pub open spec fn spec_mms(v: Seq<Option<int>>) -> Option<int> {
    fx_add(
        v[IDX_MMD as int],
        fx_mul(
            fx_mul(
                lit(1000),
                fx_mul(
                    lit(2),
                    fx_div(
                        fx_mul(lit(8), v[IDX_RHO0 as int]),
                        fx_mul(fx_mul(lit(3), pi2_lit()), fx_sqrt(fx_div(v[IDX_SD as int], pi_lit()))),
                    ),
                ),
            ),
            sq(v[IDX_SD as int]),
        ),
    )
}

// g / cm^4 = g / cm^4
pub open spec fn spec_mas(v: Seq<Option<int>>) -> Option<int> {
    fx_div(v[IDX_MMS as int], sq(v[IDX_SD as int]))
}

// (N * s / m) / (100000000 * cm^4) = (Pa * s) / m^3
pub open spec fn spec_ras(v: Seq<Option<int>>) -> Option<int> {
    fx_div(v[IDX_RMS as int], fx_mul(lit(100000000), sq(v[IDX_SD as int])))
}

// 100000000 * (1 m / N) * cm^4 = m^5 / N
pub open spec fn spec_cas(v: Seq<Option<int>>) -> Option<int> {
    fx_mul(fx_mul(lit(100000000), v[IDX_CMS as int]), sq(v[IDX_SD as int]))
}

// (kg / m^3) * (m/s)^2 * (m^5 / N) / 1000 = L
pub open spec fn spec_vas(v: Seq<Option<int>>) -> Option<int> {
    fx_div(
        fx_mul(fx_mul(v[IDX_RHO0 as int], sq(v[IDX_C as int])), v[IDX_CAS as int]),
        lit(1000),
    )
}

// 1 / Hz = s
pub open spec fn spec_ts(v: Seq<Option<int>>) -> Option<int> {
    fx_div(lit(1), v[IDX_WS as int])
}

// Hz = Hz
pub open spec fn spec_ws(v: Seq<Option<int>>) -> Option<int> {
    fx_mul(v[IDX_FS as int], pi2_lit())
}

// 1 / sqrt((g/cm^4) * (m^5 / N) / 100000) = Hz
pub open spec fn spec_fs(v: Seq<Option<int>>) -> Option<int> {
    fx_div(
        lit(1),
        fx_mul(pi2_lit(), fx_sqrt(fx_div(fx_mul(v[IDX_MAS as int], v[IDX_CAS as int]), lit(100000)))),
    )
}

// 1000 * (Hz * Ohm * (g/cm^4) * cm^4) / (tesla * m)^2 = 1
pub open spec fn spec_qes(v: Seq<Option<int>>) -> Option<int> {
    fx_div(
        fx_mul(
            lit(1000),
            fx_mul(
                fx_mul(fx_mul(v[IDX_WS as int], v[IDX_RE as int]), v[IDX_MAS as int]),
                sq(v[IDX_SD as int]),
            ),
        ),
        sq(v[IDX_BL as int]),
    )
}

// 1 / (Hz * (m^5 / N) * (Pa * s) / m^3) = 1
pub open spec fn spec_qms(v: Seq<Option<int>>) -> Option<int> {
    fx_div(lit(1), fx_mul(fx_mul(v[IDX_WS as int], v[IDX_CAS as int]), v[IDX_RAS as int]))
}

pub open spec fn spec_qts(v: Seq<Option<int>>) -> Option<int> {
    fx_div(
        fx_mul(v[IDX_QES as int], v[IDX_QMS as int]),
        fx_add(v[IDX_QES as int], v[IDX_QMS as int]),
    )
}

pub open spec fn spec_qs(v: Seq<Option<int>>) -> Option<int> {
    v[IDX_QTS as int]
}

// (kg/m^3) * (m/s)^2 * (m^5 / N) / 1000 = L
pub open spec fn spec_vb(v: Seq<Option<int>>) -> Option<int> {
    fx_div(
        fx_mul(fx_mul(v[IDX_RHO0 as int], sq(v[IDX_C as int])), v[IDX_CAB as int]),
        lit(1000),
    )
}

// (kg/m^3) * (m/s)^2 * (m^5 / N) = L
pub open spec fn spec_vap(v: Seq<Option<int>>) -> Option<int> {
    fx_mul(fx_mul(v[IDX_RHO0 as int], sq(v[IDX_C as int])), v[IDX_CAP as int])
}

// 100000000 * (m/N) * cm^4 = m^5 / N
pub open spec fn spec_cap(v: Seq<Option<int>>) -> Option<int> {
    fx_mul(fx_mul(lit(100000000), v[IDX_CMP as int]), sq(v[IDX_SP as int]))
}

// ((N * s / m) / cm^4) * 100000000 = (Pa * s) / m^3
pub open spec fn spec_rap(v: Seq<Option<int>>) -> Option<int> {
    fx_mul(fx_div(v[IDX_RMP as int], sq(v[IDX_SP as int])), lit(100000000))
}

// kg / cm^4 = kg / cm^4
pub open spec fn spec_map(v: Seq<Option<int>>) -> Option<int> {
    fx_div(v[IDX_MMP as int], sq(v[IDX_SP as int]))
}

// 1 / (Hz * (m^5 / N) * (Pa * s)/m^3) = 1
pub open spec fn spec_qmp(v: Seq<Option<int>>) -> Option<int> {
    fx_div(lit(1), fx_mul(fx_mul(v[IDX_WP as int], v[IDX_CAP as int]), v[IDX_RAP as int]))
}

// 10000 / sqrt((kg/cm^4) * (m^5/N)) = Hz
pub open spec fn spec_fp(v: Seq<Option<int>>) -> Option<int> {
    fx_div(lit(10000), fx_mul(pi2_lit(), fx_sqrt(fx_mul(v[IDX_MAP as int], v[IDX_CAP as int]))))
}

// 1 / Hz = s
pub open spec fn spec_tp(v: Seq<Option<int>>) -> Option<int> {
    fx_div(lit(1), v[IDX_WP as int])
}

pub open spec fn spec_wp(v: Seq<Option<int>>) -> Option<int> {
    fx_mul(v[IDX_FP as int], pi2_lit())
}

// 10000 * sqrt(1 / (m^5/N * kg/cm^4)) = Hz
pub open spec fn spec_fb(v: Seq<Option<int>>) -> Option<int> {
    fx_mul(
        lit(10000),
        fx_sqrt(
            fx_div(
                fx_add(lit(1), fx_div(v[IDX_CAB as int], v[IDX_CAP as int])),
                fx_mul(fx_mul(pi2_lit(), v[IDX_CAB as int]), v[IDX_MAP as int]),
            ),
        ),
    )
}

// 1 / Hz = s
pub open spec fn spec_tb(v: Seq<Option<int>>) -> Option<int> {
    fx_div(lit(1), v[IDX_WP as int])
}

pub open spec fn spec_wb(v: Seq<Option<int>>) -> Option<int> {
    fx_mul(v[IDX_FP as int], pi2_lit())
}

pub open spec fn spec_alpha(v: Seq<Option<int>>) -> Option<int> {
    fx_div(v[IDX_CAS as int], v[IDX_CAB as int])
}

pub open spec fn spec_delta(v: Seq<Option<int>>) -> Option<int> {
    fx_div(v[IDX_CAP as int], v[IDX_CAB as int])
}

pub open spec fn spec_y(v: Seq<Option<int>>) -> Option<int> {
    fx_div(v[IDX_FB as int], v[IDX_FS as int])
}

pub open spec fn spec_h(v: Seq<Option<int>>) -> Option<int> {
    fx_div(v[IDX_FB as int], v[IDX_FP as int])
}

// (1000 / (m/s)^3) * (Hz^3 * L) = 1
pub open spec fn spec_eta0(v: Seq<Option<int>>) -> Option<int> {
    fx_mul(
        fx_div(fx_mul(lit(4), sq(pi_lit())), cube(v[IDX_C as int])),
        fx_div(fx_mul(cube(v[IDX_FS as int]), v[IDX_VAS as int]), v[IDX_QES as int]),
    )
}

/// The value an equation derives from the current values.
pub open spec fn eq_eval(e: Equation, v: Seq<Option<int>>) -> Option<int> {
    match e {
        Equation::Vd => spec_vd(v),
        Equation::Mms => spec_mms(v),
        Equation::Mas => spec_mas(v),
        Equation::Ras => spec_ras(v),
        Equation::Cas => spec_cas(v),
        Equation::Vas => spec_vas(v),
        Equation::Ts => spec_ts(v),
        Equation::Ws => spec_ws(v),
        Equation::Fs => spec_fs(v),
        Equation::Qes => spec_qes(v),
        Equation::Qms => spec_qms(v),
        Equation::Qts => spec_qts(v),
        Equation::Qs => spec_qs(v),
        Equation::Vb => spec_vb(v),
        Equation::Vap => spec_vap(v),
        Equation::Cap => spec_cap(v),
        Equation::Rap => spec_rap(v),
        Equation::Mp => spec_map(v),
        Equation::Qmp => spec_qmp(v),
        Equation::Wp => spec_wp(v),
        Equation::Fp => spec_fp(v),
        Equation::Tp => spec_tp(v),
        Equation::Wb => spec_wb(v),
        Equation::Fb => spec_fb(v),
        Equation::Tb => spec_tb(v),
        Equation::Alpha => spec_alpha(v),
        Equation::Delta => spec_delta(v),
        Equation::Y => spec_y(v),
        Equation::H => spec_h(v),
        Equation::Eta0 => spec_eta0(v),
    }
}

/// Which parameter indices an equation reads: its dependency edge set.
pub open spec fn eq_reads(e: Equation, j: int) -> bool {
    match e {
        Equation::Vd => j == IDX_SD as int || j == IDX_XMAX as int,
        Equation::Mms => j == IDX_MMD as int || j == IDX_RHO0 as int || j == IDX_SD as int,
        Equation::Mas => j == IDX_MMS as int || j == IDX_SD as int,
        Equation::Ras => j == IDX_RMS as int || j == IDX_SD as int,
        Equation::Cas => j == IDX_CMS as int || j == IDX_SD as int,
        Equation::Vas => j == IDX_RHO0 as int || j == IDX_C as int || j == IDX_CAS as int,
        Equation::Ts => j == IDX_WS as int,
        Equation::Ws => j == IDX_FS as int,
        Equation::Fs => j == IDX_MAS as int || j == IDX_CAS as int,
        Equation::Qes => j == IDX_WS as int || j == IDX_RE as int || j == IDX_MAS as int || j == IDX_SD as int || j == IDX_BL as int,
        Equation::Qms => j == IDX_WS as int || j == IDX_CAS as int || j == IDX_RAS as int,
        Equation::Qts => j == IDX_QES as int || j == IDX_QMS as int,
        Equation::Qs => j == IDX_QTS as int,
        Equation::Vb => j == IDX_RHO0 as int || j == IDX_C as int || j == IDX_CAB as int,
        Equation::Vap => j == IDX_RHO0 as int || j == IDX_C as int || j == IDX_CAP as int,
        Equation::Cap => j == IDX_CMP as int || j == IDX_SP as int,
        Equation::Rap => j == IDX_RMP as int || j == IDX_SP as int,
        Equation::Mp => j == IDX_MMP as int || j == IDX_SP as int,
        Equation::Qmp => j == IDX_WP as int || j == IDX_CAP as int || j == IDX_RAP as int,
        Equation::Wp => j == IDX_FP as int,
        Equation::Fp => j == IDX_MAP as int || j == IDX_CAP as int,
        Equation::Tp => j == IDX_WP as int,
        Equation::Wb => j == IDX_FP as int,
        Equation::Fb => j == IDX_CAB as int || j == IDX_CAP as int || j == IDX_MAP as int,
        Equation::Tb => j == IDX_WP as int,
        Equation::Alpha => j == IDX_CAS as int || j == IDX_CAB as int,
        Equation::Delta => j == IDX_CAP as int || j == IDX_CAB as int,
        Equation::Y => j == IDX_FB as int || j == IDX_FS as int,
        Equation::H => j == IDX_FB as int || j == IDX_FP as int,
        Equation::Eta0 => j == IDX_C as int || j == IDX_FS as int || j == IDX_VAS as int || j == IDX_QES as int,
    }
}

/// An equation's value depends only on the parameters it reads.
pub proof fn lemma_eq_eval_frame(e: Equation, a: Seq<Option<int>>, b: Seq<Option<int>>)
    requires
        forall|j: int| #[trigger] eq_reads(e, j) ==> a[j] == b[j],
    ensures
        eq_eval(e, a) == eq_eval(e, b),
{
    match e {
        Equation::Vd => {
            assert(eq_reads(e, IDX_SD as int));
            assert(eq_reads(e, IDX_XMAX as int));
        },
        Equation::Mms => {
            assert(eq_reads(e, IDX_MMD as int));
            assert(eq_reads(e, IDX_RHO0 as int));
            assert(eq_reads(e, IDX_SD as int));
        },
        Equation::Mas => {
            assert(eq_reads(e, IDX_MMS as int));
            assert(eq_reads(e, IDX_SD as int));
        },
        Equation::Ras => {
            assert(eq_reads(e, IDX_RMS as int));
            assert(eq_reads(e, IDX_SD as int));
        },
        Equation::Cas => {
            assert(eq_reads(e, IDX_CMS as int));
            assert(eq_reads(e, IDX_SD as int));
        },
        Equation::Vas => {
            assert(eq_reads(e, IDX_RHO0 as int));
            assert(eq_reads(e, IDX_C as int));
            assert(eq_reads(e, IDX_CAS as int));
        },
        Equation::Ts => {
            assert(eq_reads(e, IDX_WS as int));
        },
        Equation::Ws => {
            assert(eq_reads(e, IDX_FS as int));
        },
        Equation::Fs => {
            assert(eq_reads(e, IDX_MAS as int));
            assert(eq_reads(e, IDX_CAS as int));
        },
        Equation::Qes => {
            assert(eq_reads(e, IDX_WS as int));
            assert(eq_reads(e, IDX_RE as int));
            assert(eq_reads(e, IDX_MAS as int));
            assert(eq_reads(e, IDX_SD as int));
            assert(eq_reads(e, IDX_BL as int));
        },
        Equation::Qms => {
            assert(eq_reads(e, IDX_WS as int));
            assert(eq_reads(e, IDX_CAS as int));
            assert(eq_reads(e, IDX_RAS as int));
        },
        Equation::Qts => {
            assert(eq_reads(e, IDX_QES as int));
            assert(eq_reads(e, IDX_QMS as int));
        },
        Equation::Qs => {
            assert(eq_reads(e, IDX_QTS as int));
        },
        Equation::Vb => {
            assert(eq_reads(e, IDX_RHO0 as int));
            assert(eq_reads(e, IDX_C as int));
            assert(eq_reads(e, IDX_CAB as int));
        },
        Equation::Vap => {
            assert(eq_reads(e, IDX_RHO0 as int));
            assert(eq_reads(e, IDX_C as int));
            assert(eq_reads(e, IDX_CAP as int));
        },
        Equation::Cap => {
            assert(eq_reads(e, IDX_CMP as int));
            assert(eq_reads(e, IDX_SP as int));
        },
        Equation::Rap => {
            assert(eq_reads(e, IDX_RMP as int));
            assert(eq_reads(e, IDX_SP as int));
        },
        Equation::Mp => {
            assert(eq_reads(e, IDX_MMP as int));
            assert(eq_reads(e, IDX_SP as int));
        },
        Equation::Qmp => {
            assert(eq_reads(e, IDX_WP as int));
            assert(eq_reads(e, IDX_CAP as int));
            assert(eq_reads(e, IDX_RAP as int));
        },
        Equation::Wp => {
            assert(eq_reads(e, IDX_FP as int));
        },
        Equation::Fp => {
            assert(eq_reads(e, IDX_MAP as int));
            assert(eq_reads(e, IDX_CAP as int));
        },
        Equation::Tp => {
            assert(eq_reads(e, IDX_WP as int));
        },
        Equation::Wb => {
            assert(eq_reads(e, IDX_FP as int));
        },
        Equation::Fb => {
            assert(eq_reads(e, IDX_CAB as int));
            assert(eq_reads(e, IDX_CAP as int));
            assert(eq_reads(e, IDX_MAP as int));
        },
        Equation::Tb => {
            assert(eq_reads(e, IDX_WP as int));
        },
        Equation::Alpha => {
            assert(eq_reads(e, IDX_CAS as int));
            assert(eq_reads(e, IDX_CAB as int));
        },
        Equation::Delta => {
            assert(eq_reads(e, IDX_CAP as int));
            assert(eq_reads(e, IDX_CAB as int));
        },
        Equation::Y => {
            assert(eq_reads(e, IDX_FB as int));
            assert(eq_reads(e, IDX_FS as int));
        },
        Equation::H => {
            assert(eq_reads(e, IDX_FB as int));
            assert(eq_reads(e, IDX_FP as int));
        },
        Equation::Eta0 => {
            assert(eq_reads(e, IDX_C as int));
            assert(eq_reads(e, IDX_FS as int));
            assert(eq_reads(e, IDX_VAS as int));
            assert(eq_reads(e, IDX_QES as int));
        },
    }
}

/// The fixed-point value of pi.
pub fn pi() -> (r: Scalar)
    ensures
        r@ == pi_lit(),
{
    Scalar::from_raw(PI_RAW)
}

/// The fixed-point value of two pi.
pub fn pi2() -> (r: Scalar)
    ensures
        r@ == pi2_lit(),
{
    Scalar::from_raw(PI2_RAW)
}

/// The current value of the parameter at an index.
pub fn val(p: &Parameters, i: usize) -> (r: Scalar)
    requires
        p.well_sized(),
        i < N_PARAMS,
    ensures
        r@ == vals(p@)[i as int],
{
    p.params[i].value
}

// 10000 * cm^2 * mm = L
pub fn vd_update(p: &Parameters) -> (r: Scalar)
    requires
        p.well_sized(),
    ensures
        r@ == spec_vd(vals(p@)),
{
    Scalar::from_int(10000).mul(val(p, IDX_SD)).mul(val(p, IDX_XMAX))
}

// g + 1000 * ((kg / m^3) / sqrt(cm^2)) * cm^4 = g
pub fn mms_update(p: &Parameters) -> (r: Scalar)
    requires
        p.well_sized(),
    ensures
        r@ == spec_mms(vals(p@)),
{
    let sd = val(p, IDX_SD);
    let inner = Scalar::from_int(2).mul(
        Scalar::from_int(8).mul(val(p, IDX_RHO0)).div(
            Scalar::from_int(3).mul(pi2()).mul(sd.div(pi()).sqrt()),
        ),
    );
    val(p, IDX_MMD).add(Scalar::from_int(1000).mul(inner).mul(sd.mul(sd)))
}

// g / cm^4 = g / cm^4
pub fn mas_update(p: &Parameters) -> (r: Scalar)
    requires
        p.well_sized(),
    ensures
        r@ == spec_mas(vals(p@)),
{
    let sd = val(p, IDX_SD);
    val(p, IDX_MMS).div(sd.mul(sd))
}

// (N * s / m) / (100000000 * cm^4) = (Pa * s) / m^3
pub fn ras_update(p: &Parameters) -> (r: Scalar)
    requires
        p.well_sized(),
    ensures
        r@ == spec_ras(vals(p@)),
{
    let sd = val(p, IDX_SD);
    val(p, IDX_RMS).div(Scalar::from_int(100000000).mul(sd.mul(sd)))
}

// 100000000 * (1 m / N) * cm^4 = m^5 / N
pub fn cas_update(p: &Parameters) -> (r: Scalar)
    requires
        p.well_sized(),
    ensures
        r@ == spec_cas(vals(p@)),
{
    let sd = val(p, IDX_SD);
    Scalar::from_int(100000000).mul(val(p, IDX_CMS)).mul(sd.mul(sd))
}

// (kg / m^3) * (m/s)^2 * (m^5 / N) / 1000 = L
pub fn vas_update(p: &Parameters) -> (r: Scalar)
    requires
        p.well_sized(),
    ensures
        r@ == spec_vas(vals(p@)),
{
    let c = val(p, IDX_C);
    val(p, IDX_RHO0).mul(c.mul(c)).mul(val(p, IDX_CAS)).div(Scalar::from_int(1000))
}

// 1 / Hz = s
pub fn ts_update(p: &Parameters) -> (r: Scalar)
    requires
        p.well_sized(),
    ensures
        r@ == spec_ts(vals(p@)),
{
    Scalar::one().div(val(p, IDX_WS))
}

// Hz = Hz
pub fn ws_update(p: &Parameters) -> (r: Scalar)
    requires
        p.well_sized(),
    ensures
        r@ == spec_ws(vals(p@)),
{
    val(p, IDX_FS).mul(pi2())
}

// 1 / sqrt((g/cm^4) * (m^5 / N) / 100000) = Hz
pub fn fs_update(p: &Parameters) -> (r: Scalar)
    requires
        p.well_sized(),
    ensures
        r@ == spec_fs(vals(p@)),
{
    Scalar::one().div(
        pi2().mul(val(p, IDX_MAS).mul(val(p, IDX_CAS)).div(Scalar::from_int(100000)).sqrt()),
    )
}

// 1000 * (Hz * Ohm * (g/cm^4) * cm^4) / (tesla * m)^2 = 1
pub fn qes_update(p: &Parameters) -> (r: Scalar)
    requires
        p.well_sized(),
    ensures
        r@ == spec_qes(vals(p@)),
{
    let sd = val(p, IDX_SD);
    let bl = val(p, IDX_BL);
    Scalar::from_int(1000).mul(
        val(p, IDX_WS).mul(val(p, IDX_RE)).mul(val(p, IDX_MAS)).mul(sd.mul(sd)),
    ).div(bl.mul(bl))
}

// 1 / (Hz * (m^5 / N) * (Pa * s) / m^3) = 1
pub fn qms_update(p: &Parameters) -> (r: Scalar)
    requires
        p.well_sized(),
    ensures
        r@ == spec_qms(vals(p@)),
{
    Scalar::one().div(val(p, IDX_WS).mul(val(p, IDX_CAS)).mul(val(p, IDX_RAS)))
}

pub fn qts_update(p: &Parameters) -> (r: Scalar)
    requires
        p.well_sized(),
    ensures
        r@ == spec_qts(vals(p@)),
{
    let qes = val(p, IDX_QES);
    let qms = val(p, IDX_QMS);
    qes.mul(qms).div(qes.add(qms))
}

pub fn qs_update(p: &Parameters) -> (r: Scalar)
    requires
        p.well_sized(),
    ensures
        r@ == spec_qs(vals(p@)),
{
    val(p, IDX_QTS)
}

// (kg/m^3) * (m/s)^2 * (m^5 / N) / 1000 = L
pub fn vb_update(p: &Parameters) -> (r: Scalar)
    requires
        p.well_sized(),
    ensures
        r@ == spec_vb(vals(p@)),
{
    let c = val(p, IDX_C);
    val(p, IDX_RHO0).mul(c.mul(c)).mul(val(p, IDX_CAB)).div(Scalar::from_int(1000))
}

// (kg/m^3) * (m/s)^2 * (m^5 / N) = L
pub fn vap_update(p: &Parameters) -> (r: Scalar)
    requires
        p.well_sized(),
    ensures
        r@ == spec_vap(vals(p@)),
{
    let c = val(p, IDX_C);
    val(p, IDX_RHO0).mul(c.mul(c)).mul(val(p, IDX_CAP))
}

// 100000000 * (m/N) * cm^4 = m^5 / N
pub fn cap_update(p: &Parameters) -> (r: Scalar)
    requires
        p.well_sized(),
    ensures
        r@ == spec_cap(vals(p@)),
{
    let sp = val(p, IDX_SP);
    Scalar::from_int(100000000).mul(val(p, IDX_CMP)).mul(sp.mul(sp))
}

// ((N * s / m) / cm^4) * 100000000 = (Pa * s) / m^3
pub fn rap_update(p: &Parameters) -> (r: Scalar)
    requires
        p.well_sized(),
    ensures
        r@ == spec_rap(vals(p@)),
{
    let sp = val(p, IDX_SP);
    val(p, IDX_RMP).div(sp.mul(sp)).mul(Scalar::from_int(100000000))
}

// kg / cm^4 = kg / cm^4
pub fn map_update(p: &Parameters) -> (r: Scalar)
    requires
        p.well_sized(),
    ensures
        r@ == spec_map(vals(p@)),
{
    let sp = val(p, IDX_SP);
    val(p, IDX_MMP).div(sp.mul(sp))
}

// 1 / (Hz * (m^5 / N) * (Pa * s)/m^3) = 1
pub fn qmp_update(p: &Parameters) -> (r: Scalar)
    requires
        p.well_sized(),
    ensures
        r@ == spec_qmp(vals(p@)),
{
    Scalar::one().div(val(p, IDX_WP).mul(val(p, IDX_CAP)).mul(val(p, IDX_RAP)))
}

// 10000 / sqrt((kg/cm^4) * (m^5/N)) = Hz
pub fn fp_update(p: &Parameters) -> (r: Scalar)
    requires
        p.well_sized(),
    ensures
        r@ == spec_fp(vals(p@)),
{
    Scalar::from_int(10000).div(pi2().mul(val(p, IDX_MAP).mul(val(p, IDX_CAP)).sqrt()))
}

// 1 / Hz = s
pub fn tp_update(p: &Parameters) -> (r: Scalar)
    requires
        p.well_sized(),
    ensures
        r@ == spec_tp(vals(p@)),
{
    Scalar::one().div(val(p, IDX_WP))
}

pub fn wp_update(p: &Parameters) -> (r: Scalar)
    requires
        p.well_sized(),
    ensures
        r@ == spec_wp(vals(p@)),
{
    val(p, IDX_FP).mul(pi2())
}

// 10000 * sqrt(1 / (m^5/N * kg/cm^4)) = Hz
pub fn fb_update(p: &Parameters) -> (r: Scalar)
    requires
        p.well_sized(),
    ensures
        r@ == spec_fb(vals(p@)),
{
    let cab = val(p, IDX_CAB);
    Scalar::from_int(10000).mul(
        Scalar::one().add(cab.div(val(p, IDX_CAP))).div(
            pi2().mul(cab).mul(val(p, IDX_MAP)),
        ).sqrt(),
    )
}

// 1 / Hz = s
pub fn tb_update(p: &Parameters) -> (r: Scalar)
    requires
        p.well_sized(),
    ensures
        r@ == spec_tb(vals(p@)),
{
    Scalar::one().div(val(p, IDX_WP))
}

pub fn wb_update(p: &Parameters) -> (r: Scalar)
    requires
        p.well_sized(),
    ensures
        r@ == spec_wb(vals(p@)),
{
    val(p, IDX_FP).mul(pi2())
}

pub fn alpha_update(p: &Parameters) -> (r: Scalar)
    requires
        p.well_sized(),
    ensures
        r@ == spec_alpha(vals(p@)),
{
    val(p, IDX_CAS).div(val(p, IDX_CAB))
}

pub fn delta_update(p: &Parameters) -> (r: Scalar)
    requires
        p.well_sized(),
    ensures
        r@ == spec_delta(vals(p@)),
{
    val(p, IDX_CAP).div(val(p, IDX_CAB))
}

pub fn y_update(p: &Parameters) -> (r: Scalar)
    requires
        p.well_sized(),
    ensures
        r@ == spec_y(vals(p@)),
{
    val(p, IDX_FB).div(val(p, IDX_FS))
}

pub fn h_update(p: &Parameters) -> (r: Scalar)
    requires
        p.well_sized(),
    ensures
        r@ == spec_h(vals(p@)),
{
    val(p, IDX_FB).div(val(p, IDX_FP))
}

// (1000 / (m/s)^3) * (Hz^3 * L) = 1
pub fn eta0_update(p: &Parameters) -> (r: Scalar)
    requires
        p.well_sized(),
    ensures
        r@ == spec_eta0(vals(p@)),
{
    let c = val(p, IDX_C);
    let fs = val(p, IDX_FS);
    let head = Scalar::from_int(4).mul(pi().mul(pi())).div(c.mul(c).mul(c));
    head.mul(fs.mul(fs).mul(fs).mul(val(p, IDX_VAS)).div(val(p, IDX_QES)))
}

/// Evaluate one equation against the current parameter values.
pub fn eval_equation(e: Equation, p: &Parameters) -> (r: Scalar)
    requires
        p.well_sized(),
    ensures
        r@ == eq_eval(e, vals(p@)),
{
    match e {
        Equation::Vd => vd_update(p),
        Equation::Mms => mms_update(p),
        Equation::Mas => mas_update(p),
        Equation::Ras => ras_update(p),
        Equation::Cas => cas_update(p),
        Equation::Vas => vas_update(p),
        Equation::Ts => ts_update(p),
        Equation::Ws => ws_update(p),
        Equation::Fs => fs_update(p),
        Equation::Qes => qes_update(p),
        Equation::Qms => qms_update(p),
        Equation::Qts => qts_update(p),
        Equation::Qs => qs_update(p),
        Equation::Vb => vb_update(p),
        Equation::Vap => vap_update(p),
        Equation::Cap => cap_update(p),
        Equation::Rap => rap_update(p),
        Equation::Mp => map_update(p),
        Equation::Qmp => qmp_update(p),
        Equation::Wp => wp_update(p),
        Equation::Fp => fp_update(p),
        Equation::Tp => tp_update(p),
        Equation::Wb => wb_update(p),
        Equation::Fb => fb_update(p),
        Equation::Tb => tb_update(p),
        Equation::Alpha => alpha_update(p),
        Equation::Delta => delta_update(p),
        Equation::Y => y_update(p),
        Equation::H => h_update(p),
        Equation::Eta0 => eta0_update(p),
    }
}


/// Whether an equation reads the parameter at `j`, decided at run time.
pub fn eq_reads_exec(e: Equation, j: usize) -> (b: bool)
    ensures
        b == eq_reads(e, j as int),
{
    match e {
        Equation::Vd => j == IDX_SD || j == IDX_XMAX,
        Equation::Mms => j == IDX_MMD || j == IDX_RHO0 || j == IDX_SD,
        Equation::Mas => j == IDX_MMS || j == IDX_SD,
        Equation::Ras => j == IDX_RMS || j == IDX_SD,
        Equation::Cas => j == IDX_CMS || j == IDX_SD,
        Equation::Vas => j == IDX_RHO0 || j == IDX_C || j == IDX_CAS,
        Equation::Ts => j == IDX_WS,
        Equation::Ws => j == IDX_FS,
        Equation::Fs => j == IDX_MAS || j == IDX_CAS,
        Equation::Qes => j == IDX_WS || j == IDX_RE || j == IDX_MAS || j == IDX_SD || j == IDX_BL,
        Equation::Qms => j == IDX_WS || j == IDX_CAS || j == IDX_RAS,
        Equation::Qts => j == IDX_QES || j == IDX_QMS,
        Equation::Qs => j == IDX_QTS,
        Equation::Vb => j == IDX_RHO0 || j == IDX_C || j == IDX_CAB,
        Equation::Vap => j == IDX_RHO0 || j == IDX_C || j == IDX_CAP,
        Equation::Cap => j == IDX_CMP || j == IDX_SP,
        Equation::Rap => j == IDX_RMP || j == IDX_SP,
        Equation::Mp => j == IDX_MMP || j == IDX_SP,
        Equation::Qmp => j == IDX_WP || j == IDX_CAP || j == IDX_RAP,
        Equation::Wp => j == IDX_FP,
        Equation::Fp => j == IDX_MAP || j == IDX_CAP,
        Equation::Tp => j == IDX_WP,
        Equation::Wb => j == IDX_FP,
        Equation::Fb => j == IDX_CAB || j == IDX_CAP || j == IDX_MAP,
        Equation::Tb => j == IDX_WP,
        Equation::Alpha => j == IDX_CAS || j == IDX_CAB,
        Equation::Delta => j == IDX_CAP || j == IDX_CAB,
        Equation::Y => j == IDX_FB || j == IDX_FS,
        Equation::H => j == IDX_FB || j == IDX_FP,
        Equation::Eta0 => j == IDX_C || j == IDX_FS || j == IDX_VAS || j == IDX_QES,
    }
}

} // verus!
