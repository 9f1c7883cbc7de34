//! The parameter arena: defaults, lookup, editing and the slider mapping.

use bass_calc::builtin_defaults;
use bass_calc::scalar::{Scalar, SCALE};
use bass_calc::BassError;

fn raw(s: Scalar) -> i128 {
    s.to_raw().expect("expected a finite value")
}

#[test]
fn defaults_hold_every_parameter() {
    let p = builtin_defaults();
    assert_eq!(p.len(), 46);
    for name in [
        "Xmax", "Vd", "Sd", "Bl", "Re", "Mmd", "Mms", "Mas", "Rms", "Ras", "Cms", "Cas", "Vas",
        "Rg", "Ts", "\u{3c9}s", "Fs", "Qes", "Qms", "Qts", "Qs", "Cab", "Vb", "Vap", "Cmp",
        "Cap", "Rmp", "Rap", "Mmp", "Map", "Sp", "Qmp", "\u{3c9}p", "Fp", "Tp", "\u{3c9}b",
        "Fb", "Tb", "\u{3b1}", "\u{3b4}", "y", "h", "\u{3b7}0", "\u{3c1}0", "c", "t",
    ] {
        assert!(p.get(name).is_some(), "missing parameter");
    }
    assert_eq!(p.get("nonsense"), None);
}

#[test]
fn default_values_match_the_table() {
    let p = builtin_defaults();
    assert_eq!(raw(p.get_value("Xmax").unwrap()), 3 * SCALE);
    assert_eq!(raw(p.get_value("\u{3c1}0").unwrap()), 1_183_900_000_000);
    assert_eq!(raw(p.get_value("c").unwrap()), 345 * SCALE);
    assert_eq!(raw(p.get_value("Ts").unwrap()), 20_000_000_000);
    assert_eq!(raw(p.get_value("\u{3b1}").unwrap()), 3 * SCALE);
    assert_eq!(raw(p.get_value("\u{3b4}").unwrap()), 7 * SCALE);
    assert_eq!(raw(p.get_value("y").unwrap()), 500_000_000_000);
    let xmax = p.param_at(p.get("Xmax").unwrap());
    assert_eq!(xmax.precision(), 1);
    assert_eq!(xmax.unit, "mm");
    assert_eq!(raw(xmax.min), 0);
    assert_eq!(raw(xmax.max), 100 * SCALE);
}

#[test]
fn unknown_names_are_reported() {
    let mut p = builtin_defaults();
    assert_eq!(p.get_value("Zz"), Err(BassError::UnknownParameter));
    assert_eq!(p.set_value("Zz", Scalar::one()), Err(BassError::UnknownParameter));
    assert_eq!(p.to_percent("Zz"), Err(BassError::UnknownParameter));
    assert_eq!(p.set_percent("Zz", Scalar::one()), Err(BassError::UnknownParameter));
    assert_eq!(p.set_precision("Zz", 3), Err(BassError::UnknownParameter));
}

#[test]
fn set_value_overwrites_without_clamping() {
    let mut p = builtin_defaults();
    // Far outside the advisory bounds of Xmax.
    p.set_value("Xmax", Scalar::from_int(5000)).unwrap();
    assert_eq!(raw(p.get_value("Xmax").unwrap()), 5000 * SCALE);
}

#[test]
fn to_percent_maps_value_onto_bounds() {
    let p = builtin_defaults();
    // Xmax: 3.0 across the bounds 0..100 sits at 0.03.
    assert_eq!(raw(p.to_percent("Xmax").unwrap()), 30_000_000_000);
}

#[test]
fn percent_round_trip_is_exact_on_the_grid() {
    let mut p = builtin_defaults();
    p.set_value("Xmax", Scalar::from_int(5)).unwrap();
    let pct = p.to_percent("Xmax").unwrap();
    assert_eq!(raw(pct), 50_000_000_000);
    p.set_percent("Xmax", pct).unwrap();
    assert_eq!(raw(p.get_value("Xmax").unwrap()), 5 * SCALE);
}

#[test]
fn percent_round_trip_loses_at_most_a_span_step() {
    let mut p = builtin_defaults();
    let v: i128 = 333_333_333_333;
    p.set_value("Xmax", Scalar::from_raw(v)).unwrap();
    let pct = p.to_percent("Xmax").unwrap();
    assert_eq!(raw(pct), 3_333_333_333);
    p.set_percent("Xmax", pct).unwrap();
    let back = raw(p.get_value("Xmax").unwrap());
    assert_eq!(back, 333_333_333_300);
    let span_step = (100 * SCALE) / SCALE + 1;
    assert!(0 <= v - back && v - back <= span_step);
}

#[test]
fn set_precision_leaves_the_value_alone() {
    let mut p = builtin_defaults();
    let before = raw(p.get_value("Xmax").unwrap());
    p.set_precision("Xmax", 6).unwrap();
    let k = p.get("Xmax").unwrap();
    assert_eq!(p.param_at(k).precision(), 6);
    assert_eq!(raw(p.get_value("Xmax").unwrap()), before);
}

#[test]
fn percent_of_degenerate_bounds_is_non_finite() {
    let mut p = builtin_defaults();
    // Build a parameter with min == max through the public constructor.
    let q = bass_calc::params::param_simple(
        "q",
        "",
        Scalar::one(),
        Scalar::one(),
        Scalar::one(),
        1,
    );
    assert!(!q.to_percent().is_finite());
    // The arena itself is untouched by reading percentages.
    assert!(p.to_percent("Xmax").is_ok());
}
