//! Preset records: field parsing, record application and whole files.

use bass_calc::builtin_defaults;
use bass_calc::scalar::{Scalar, SCALE};
use bass_calc::{parse_value, split_str, trim_str, BassError, RecordOutcome};

fn raw(s: Scalar) -> i128 {
    s.to_raw().expect("expected a finite value")
}

fn fields(rec: &[&str]) -> Vec<String> {
    rec.iter().map(|s| s.to_string()).collect()
}

#[test]
fn values_parse_as_fixed_point_decimals() {
    assert_eq!(raw(parse_value("5.0").unwrap()), 5 * SCALE);
    assert_eq!(raw(parse_value(" 3.25 ").unwrap()), 3_250_000_000_000);
    assert_eq!(raw(parse_value("-0.5").unwrap()), -500_000_000_000);
    assert_eq!(raw(parse_value(".5").unwrap()), 500_000_000_000);
    assert_eq!(raw(parse_value("7.").unwrap()), 7 * SCALE);
    assert_eq!(raw(parse_value("+42").unwrap()), 42 * SCALE);
    assert_eq!(raw(parse_value("0.0000000000001").unwrap()), 0);
    assert_eq!(raw(parse_value("1.1839").unwrap()), 1_183_900_000_000);
}

#[test]
fn malformed_values_are_reported() {
    for bad in ["", " ", "abc", "1e3", "1.2.3", "--1", "5,0", "."] {
        assert_eq!(parse_value(bad), Err(BassError::MalformedInput), "case: {bad}");
    }
}

#[test]
fn trim_strips_blanks_only_at_the_ends() {
    assert_eq!(trim_str("  a b \t"), "a b");
    assert_eq!(trim_str(""), "");
    assert_eq!(trim_str(" \r\n "), "");
    assert_eq!(trim_str("x"), "x");
}

#[test]
fn split_keeps_empty_fields() {
    assert_eq!(split_str("a,b,c", ','), vec!["a", "b", "c"]);
    assert_eq!(split_str("a,,c,", ','), vec!["a", "", "c", ""]);
    assert_eq!(split_str("", ','), vec![""]);
}

#[test]
fn preset_record_sets_value_and_precision() {
    // Scenario: the record `Xmax, 5.0, -, -, 2, -` sets the named
    // parameter's value to 5.0 and its precision to 2, and nothing else.
    let mut p = builtin_defaults();
    let before: Vec<Option<i128>> =
        (0..p.len()).map(|i| p.param_at(i).v().to_raw()).collect();
    let r = p.apply_record(&fields(&["Xmax", "5.0", "-", "-", "2", "-"]));
    assert_eq!(r, Ok(RecordOutcome { value_set: true, precision_set: true }));
    let k = p.get("Xmax").unwrap();
    assert_eq!(raw(p.param_at(k).v()), 5 * SCALE);
    assert_eq!(p.param_at(k).precision(), 2);
    for i in 0..p.len() {
        if i != k {
            assert_eq!(p.param_at(i).v().to_raw(), before[i], "parameter {i} changed");
            assert_eq!(p.param_at(i).precision(), if i == 14 { 4 } else if i == 28 { 3 } else if i == 43 { 4 } else { 1 });
        }
    }
}

#[test]
fn wrong_field_count_is_skipped() {
    let mut p = builtin_defaults();
    let before = raw(p.get_value("Xmax").unwrap());
    let r = p.apply_record(&fields(&["Xmax", "5.0", "-", "-", "2"]));
    assert_eq!(r, Err(BassError::WrongRecordLength));
    assert_eq!(raw(p.get_value("Xmax").unwrap()), before);
}

#[test]
fn unknown_name_is_skipped() {
    let mut p = builtin_defaults();
    let r = p.apply_record(&fields(&["Nope", "5.0", "-", "-", "2", "-"]));
    assert_eq!(r, Err(BassError::UnknownParameter));
}

#[test]
fn malformed_value_still_sets_precision() {
    let mut p = builtin_defaults();
    let before = raw(p.get_value("Xmax").unwrap());
    let r = p.apply_record(&fields(&["Xmax", "5x", "-", "-", "3", "-"]));
    assert_eq!(r, Ok(RecordOutcome { value_set: false, precision_set: true }));
    assert_eq!(raw(p.get_value("Xmax").unwrap()), before);
    let k = p.get("Xmax").unwrap();
    assert_eq!(p.param_at(k).precision(), 3);
}

#[test]
fn malformed_precision_still_sets_value() {
    let mut p = builtin_defaults();
    let r = p.apply_record(&fields(&["Xmax", "4.5", "-", "-", "two", "-"]));
    assert_eq!(r, Ok(RecordOutcome { value_set: true, precision_set: false }));
    assert_eq!(raw(p.get_value("Xmax").unwrap()), 4_500_000_000_000);
}

#[test]
fn load_preset_walks_every_data_line() {
    let mut p = builtin_defaults();
    let text = "# driver overrides\nXmax, 5.0, -, -, 2, -\n\nRe, 8.0, -, -, 1, -\r\nNope, 1, -, -, 1, -\nbadline\n";
    let report = p.load_preset(text);
    assert_eq!(raw(p.get_value("Xmax").unwrap()), 5 * SCALE);
    assert_eq!(raw(p.get_value("Re").unwrap()), 8 * SCALE);
    assert_eq!(
        report,
        vec![
            Ok(RecordOutcome { value_set: true, precision_set: true }),
            Ok(RecordOutcome { value_set: true, precision_set: true }),
            Err(BassError::UnknownParameter),
            Err(BassError::WrongRecordLength),
        ],
    );
}

#[test]
fn load_preset_skips_comments_and_blanks() {
    let mut p = builtin_defaults();
    let before = raw(p.get_value("Xmax").unwrap());
    let report = p.load_preset("# Xmax, 9.0, -, -, 2, -\n\n   \n");
    assert_eq!(raw(p.get_value("Xmax").unwrap()), before);
    // The whitespace-only line is a record attempt with one field.
    assert_eq!(report, vec![Err(BassError::WrongRecordLength)]);
}
