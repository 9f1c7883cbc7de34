//! Transfer-function assembly and frequency-response evaluation.

use bass_calc::builtin_defaults;
use bass_calc::scalar::{Scalar, SCALE};
use bass_calc::{
    bass_fn_point, BassFnData, DriverDisplacement, EfficencyAdams, Impedance,
    PassiveDisplacement, Radiator, RadiatorAlt,
};

fn raw(s: Scalar) -> i128 {
    s.to_raw().expect("expected a finite value")
}

fn raws(v: &[Scalar]) -> Vec<i128> {
    v.iter().map(|s| s.to_raw().expect("finite")).collect()
}

#[test]
fn identity_function_has_unit_magnitude() {
    // Polynomial evaluation sanity: numerator [1] over denominator [1]
    // returns exactly one at any finite frequency.
    let data = BassFnData { num: vec![Scalar::one()], den: vec![Scalar::one()] };
    for w in [0i64, 1, 20, 37, 200, 100000] {
        assert_eq!(raw(bass_fn_point(&data, Scalar::from_int(w))), SCALE);
    }
}

#[test]
fn radiator_coefficients_on_defaults() {
    let p = builtin_defaults();
    let d = Radiator(&p);
    assert_eq!(raws(&d.num), vec![SCALE, 2_114_742_526_899, 150_755_672_288, 0, 0]);
    assert_eq!(
        raws(&d.den),
        vec![SCALE, 8_353_232_981_247, 5_608_111_009_132, 3_980_332_982_454, SCALE],
    );
}

#[test]
fn radiator_alt_coefficients_on_defaults() {
    let p = builtin_defaults();
    let d = RadiatorAlt(&p);
    assert_eq!(raws(&d.num), vec![1_000_000, 40_000_000, 400_000_000, 0, 0]);
    assert_eq!(
        raws(&d.den),
        vec![1_000_000, 81_200_000, 19_520_000_000, 760_000_000_000, 11 * SCALE],
    );
}

#[test]
fn displacement_and_impedance_coefficients_on_defaults() {
    let p = builtin_defaults();
    let drv = DriverDisplacement(&p);
    assert_eq!(raws(&drv.num), vec![0, 0, 27_500_000_000, 0, 11 * SCALE]);
    let pas = PassiveDisplacement(&p);
    assert_eq!(raws(&pas.num), vec![0, 0, 0, 0, 11 * SCALE]);
    let imp = Impedance(&p);
    assert_eq!(raws(&imp.num), vec![0, 1_100_000_000, 0, 440_000_000_000, 11 * SCALE]);
    // All three share the response denominator.
    let alt = RadiatorAlt(&p);
    assert_eq!(raws(&drv.den), raws(&alt.den));
    assert_eq!(raws(&pas.den), raws(&alt.den));
    assert_eq!(raws(&imp.den), raws(&alt.den));
}

#[test]
fn assemblers_are_deterministic() {
    // Determinism: repeated calls on an unchanged parameter set return
    // identical coefficient sequences.
    let p = builtin_defaults();
    let a = Radiator(&p);
    let b = Radiator(&p);
    assert_eq!(raws(&a.num), raws(&b.num));
    assert_eq!(raws(&a.den), raws(&b.den));
    let c = Impedance(&p);
    let d = Impedance(&p);
    assert_eq!(raws(&c.num), raws(&d.num));
    assert_eq!(raws(&c.den), raws(&d.den));
}

#[test]
fn default_radiator_response_is_frequency_dependent() {
    // Scenario: the default set fed into the radiator assembler gives two
    // distinct finite positive magnitudes at 20 and 200.
    let p = builtin_defaults();
    let d = Radiator(&p);
    let low = bass_fn_point(&d, Scalar::from_int(20));
    let high = bass_fn_point(&d, Scalar::from_int(200));
    assert!(low.is_finite() && high.is_finite());
    let low = raw(low);
    let high = raw(high);
    assert_eq!(low, 938_908_560_156);
    assert_eq!(high, 999_320_902_915);
    assert!(low > 0 && high > 0);
    assert!((high - low).abs() > 1_000_000);
}

#[test]
fn scaled_formulation_gives_the_same_response() {
    // Equivalence across derivations: coefficient vectors that differ by a
    // common factor describe the same response.
    let p = builtin_defaults();
    let d = Radiator(&p);
    let three = Scalar::from_int(3);
    let scaled = BassFnData {
        num: d.num.iter().map(|c| c.mul(three)).collect(),
        den: d.den.iter().map(|c| c.mul(three)).collect(),
    };
    for w in [20i64, 200] {
        let a = raw(bass_fn_point(&d, Scalar::from_int(w)));
        let b = raw(bass_fn_point(&scaled, Scalar::from_int(w)));
        assert_eq!(a, b);
    }
}

#[test]
fn radiator_alt() {
    // Cross-checks at 20 and 200: two independently derived reference
    // formulations of the radiator response (raw time constants with the
    // full driver loss term, and the same response normalized by the total
    // compliance ratio) must agree in double precision though their
    // coefficient vectors differ by a common scale factor; and the library's
    // fixed-point evaluation must track a double-precision reference of its
    // own formulas.
    let p = builtin_defaults();
    let v = |name: &str| -> f64 {
        raw(p.get_value(name).unwrap()) as f64 / SCALE as f64
    };
    let (alpha, delta) = (v("\u{3b1}"), v("\u{3b4}"));
    let (qmp, qs) = (v("Qmp"), v("Qs"));
    let (ts, tp) = (v("Ts"), v("Tp"));
    let g = 0.2f64;
    let psi = alpha + delta + 1.0;
    // Time-constant formulation, with the driver loss term in third order.
    let tc_b = [ts * ts * tp * tp, ts * ts * (tp / qmp), ts * ts, 0.0, 0.0];
    let tc_a = [
        ts * ts * tp * tp,
        ts * ts * tp / qmp + tp * tp * ts / qs + (g * ts) * (alpha * tp * tp + delta * ts * ts),
        tp * tp * (alpha + 1.0) + ts * ts * (delta + 1.0) + (ts * tp) / (qs * qmp)
            + (g * ts) * ((alpha * tp / qmp) + (delta * ts / qs)),
        ts * (delta + 1.0) / qs + tp * (alpha + 1.0) / qmp + (g * ts) * (alpha + delta),
        psi,
    ];
    // The same response normalized by the total compliance ratio.
    let psi25 = psi.powf(0.25);
    let y = ts / tp;
    let y2 = y.sqrt();
    let n_a1 = (y2 / psi25) * ((1.0 / qmp) + (1.0 / (y * qs)) + (g * ((alpha / y) + (y * delta))));
    let n_a2 = (1.0 / psi.sqrt())
        * (((alpha + 1.0) / y) + (y * (delta + 1.0)) + (1.0 / (qmp * qs))
            + (g * ((alpha / qmp) + (y * (delta / qs)))));
    let n_a3 = (y2 / psi.powf(0.75))
        * (((delta + 1.0) / qs) + ((alpha + 1.0) / (y * qmp)) + (g * (alpha + delta)));
    let n_b1 = y2 / (qmp * psi25);
    let n_b2 = y / psi.sqrt();
    let t0 = ts / (y2 * psi25);
    let c4 = t0.powi(4);
    let nm_b = [c4, n_b1 * t0.powi(3), n_b2 * t0.powi(2), 0.0, 0.0];
    let nm_a = [c4, n_a1 * t0.powi(3), n_a2 * t0.powi(2), n_a3 * t0, 1.0];
    for w in [20.0f64, 200.0] {
        let one = point_f64(&tc_b, &tc_a, w);
        let other = point_f64(&nm_b, &nm_a, w);
        assert!((one - other).abs() < 0.00000000000001);
    }
    let fixed = RadiatorAlt(&p);
    let num: Vec<f64> = fixed.num.iter().map(|c| raw(*c) as f64 / SCALE as f64).collect();
    let den: Vec<f64> = fixed.den.iter().map(|c| raw(*c) as f64 / SCALE as f64).collect();
    for w in [20i64, 200] {
        let ours = raw(bass_fn_point(&fixed, Scalar::from_int(w))) as f64 / SCALE as f64;
        let reference = point_f64(&num, &den, w as f64);
        assert!((ours - reference).abs() <= 1e-6 * reference.abs().max(1.0));
    }
    assert_eq!(raw(bass_fn_point(&fixed, Scalar::from_int(20))), 21_431_185_548);
    assert_eq!(raw(bass_fn_point(&fixed, Scalar::from_int(200))), 1_669_587_381_227);
}

fn point_f64(num: &[f64], den: &[f64], w: f64) -> f64 {
    let n = poly_f64(num, w);
    let d = poly_f64(den, w);
    let m = d.0 * d.0 + d.1 * d.1;
    let re = (n.0 * d.0 + n.1 * d.1) / m;
    let im = (n.1 * d.0 - n.0 * d.1) / m;
    (re * re + im * im).sqrt()
}

fn poly_f64(coeffs: &[f64], w: f64) -> (f64, f64) {
    let mut acc = (0.0f64, 0.0f64);
    for c in coeffs {
        acc = (-acc.1 * w + c, acc.0 * w);
    }
    acc
}

#[test]
fn zero_denominator_is_non_finite() {
    let data = BassFnData { num: vec![Scalar::one()], den: vec![Scalar::zero()] };
    assert!(!bass_fn_point(&data, Scalar::from_int(20)).is_finite());
}

#[test]
fn non_finite_frequency_is_non_finite() {
    let data = BassFnData { num: vec![Scalar::one()], den: vec![Scalar::one()] };
    assert!(!bass_fn_point(&data, Scalar::non_finite()).is_finite());
}

#[test]
fn efficiency_adams_on_defaults() {
    let p = builtin_defaults();
    assert_eq!(raw(EfficencyAdams(&p)), 13_653);
}

#[test]
fn sample_curve_walks_the_window() {
    let data = BassFnData { num: vec![Scalar::one()], den: vec![Scalar::one()] };
    let pts = bass_calc::plot::sample_curve(&data, Scalar::from_int(20), Scalar::from_int(200), 4);
    assert_eq!(pts.len(), 5);
    let xs: Vec<i128> = pts.iter().map(|p| raw(p.0)).collect();
    assert_eq!(xs, vec![20 * SCALE, 65 * SCALE, 110 * SCALE, 155 * SCALE, 200 * SCALE]);
    for p in &pts {
        assert_eq!(raw(p.1), SCALE);
    }
}

#[test]
fn state_keeps_the_last_curve() {
    let mut st = bass_calc::State::new();
    assert_eq!(st.points.len(), 0);
    let p = builtin_defaults();
    let d = Radiator(&p);
    st.update(&d, Scalar::from_int(20), Scalar::from_int(200), 10);
    assert_eq!(st.points.len(), 11);
    assert_eq!(raw(st.points[0].1), 938_908_560_156);
}
