//! The equation library and the recomputation pass.

use bass_calc::builtin_defaults;
use bass_calc::equations;
use bass_calc::scalar::{Scalar, SCALE};

fn raw(s: Scalar) -> i128 {
    s.to_raw().expect("expected a finite value")
}

#[test]
fn equations_give_exact_values_on_defaults() {
    // Each formula evaluated once against the untouched default state.
    let p = builtin_defaults();
    assert_eq!(raw(equations::vd_update(&p)), 300_000_000_000_000_000);
    assert_eq!(raw(equations::mms_update(&p)), 56_335_987_763_000_000);
    assert_eq!(raw(equations::mas_update(&p)), 100_000_000_000);
    assert_eq!(raw(equations::ras_update(&p)), 400);
    assert_eq!(raw(equations::cas_update(&p)), 10_000_000_000_000_000_000_000);
    assert_eq!(raw(equations::vas_update(&p)), 140_913_697_500_000);
    assert_eq!(raw(equations::fs_update(&p)), 15_915_494_309_391);
    assert_eq!(raw(equations::ws_update(&p)), 1_973_548_504_985_238);
    assert_eq!(raw(equations::ts_update(&p)), 20_000_000_000);
    assert_eq!(raw(equations::qes_update(&p)), 200_000_000_000_000_000_000);
    assert_eq!(raw(equations::qms_update(&p)), 20_000_000_000);
    assert_eq!(raw(equations::qts_update(&p)), 250_000_000_000);
    assert_eq!(raw(equations::qs_update(&p)), 500_000_000_000);
    assert_eq!(raw(equations::vb_update(&p)), 140_913_697_500_000);
    assert_eq!(raw(equations::cap_update(&p)), 10_000_000_000_000_000_000_000);
    assert_eq!(raw(equations::rap_update(&p)), 4_000_000_000_000_000_000);
    assert_eq!(raw(equations::map_update(&p)), 10_000_000_000);
    assert_eq!(raw(equations::fp_update(&p)), 1_591_549_430_918_848);
    assert_eq!(raw(equations::qmp_update(&p)), 50_000_000_000);
    assert_eq!(raw(equations::vap_update(&p)), 140_913_697_500_000_000);
    assert_eq!(raw(equations::fb_update(&p)), 5_641_895_835_470_000);
    assert_eq!(raw(equations::alpha_update(&p)), SCALE);
    assert_eq!(raw(equations::delta_update(&p)), SCALE);
    assert_eq!(raw(equations::y_update(&p)), 382_043_935_052);
    assert_eq!(raw(equations::h_update(&p)), SCALE);
    assert_eq!(raw(equations::eta0_update(&p)), 59_584_886_404_681);
}

#[test]
fn tb_and_wb_mirror_the_radiator_formulas() {
    let p = builtin_defaults();
    assert_eq!(
        raw(equations::tb_update(&p)),
        raw(equations::tp_update(&p)),
    );
    assert_eq!(
        raw(equations::wb_update(&p)),
        raw(equations::wp_update(&p)),
    );
}

#[test]
fn recompute_all_updates_derived_values() {
    let mut p = builtin_defaults();
    p.recompute_all();
    // Spot checks along the dependency chain.
    assert_eq!(raw(p.get_value("Vd").unwrap()), 300_000_000_000_000_000);
    assert_eq!(raw(p.get_value("Mms").unwrap()), 56_335_987_763_000_000);
    assert_eq!(raw(p.get_value("Mas").unwrap()), 563_359_877_630_000);
    assert_eq!(raw(p.get_value("Fs").unwrap()), 21_204_457);
    assert_eq!(raw(p.get_value("Qts").unwrap()), 1_766_054_272_159_563);
    // The independent inputs are untouched.
    assert_eq!(raw(p.get_value("Sd").unwrap()), 10 * SCALE);
    assert_eq!(raw(p.get_value("Cms").unwrap()), SCALE);
    assert_eq!(raw(p.get_value("c").unwrap()), 345 * SCALE);
}

#[test]
fn recompute_all_is_idempotent() {
    // Dependency ordering: one topologically-ordered pass reaches a fixed
    // point, so a second pass changes nothing.
    let mut p = builtin_defaults();
    p.recompute_all();
    let first: Vec<Option<i128>> = (0..p.len()).map(|i| p.param_at(i).v().to_raw()).collect();
    p.recompute_all();
    let second: Vec<Option<i128>> = (0..p.len()).map(|i| p.param_at(i).v().to_raw()).collect();
    assert_eq!(first, second);
}

#[test]
fn recompute_all_leaves_names_and_bounds_alone() {
    let mut p = builtin_defaults();
    let names: Vec<String> = (0..p.len()).map(|i| p.param_at(i).name.clone()).collect();
    let mins: Vec<Option<i128>> = (0..p.len()).map(|i| p.param_at(i).min.to_raw()).collect();
    p.recompute_all();
    let names2: Vec<String> = (0..p.len()).map(|i| p.param_at(i).name.clone()).collect();
    let mins2: Vec<Option<i128>> = (0..p.len()).map(|i| p.param_at(i).min.to_raw()).collect();
    assert_eq!(names, names2);
    assert_eq!(mins, mins2);
}

#[test]
fn dependency_edges_follow_the_formulas() {
    let p = builtin_defaults();
    let qts = p.get("Qts").unwrap();
    // Qts reads Qes and Qms.
    assert_eq!(p.children_of(qts), vec![17, 18]);
    // An independent input reads nothing.
    assert_eq!(p.children_of(p.get("Xmax").unwrap()), Vec::<usize>::new());
    // Everything that reads the cone area must be recomputed when it moves.
    let sd = p.get("Sd").unwrap();
    assert_eq!(p.parents_of(sd), vec![1, 6, 7, 9, 11, 17]);
    assert!(p.depends_on(qts, 17));
    assert!(!p.depends_on(qts, sd));
}
