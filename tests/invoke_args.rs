use wasmer_run::invoke::{convert_argument, marshal_arguments, ArgValue, InvokeError, ValueKind};
use wasmer_run::numeric::{parse_i32, parse_i64};
use wasmer_run::text::{decimal, join, same_text, starts_with};

fn strings(items: &[&str]) -> Vec<String> {
    items.iter().map(|s| s.to_string()).collect()
}

fn flags(args: &Vec<String>) -> Vec<bool> {
    args.iter().map(|a| a.parse::<f64>().is_ok()).collect()
}

#[test]
fn parses_plain_and_signed_integers() {
    assert_eq!(parse_i32("2"), Some(2));
    assert_eq!(parse_i32("+5"), Some(5));
    assert_eq!(parse_i32("-17"), Some(-17));
    assert_eq!(parse_i32("007"), Some(7));
    assert_eq!(parse_i32("-2147483648"), Some(i32::MIN));
    assert_eq!(parse_i32("2147483647"), Some(i32::MAX));
}

#[test]
fn rejects_malformed_or_out_of_range_integers() {
    assert_eq!(parse_i32(""), None);
    assert_eq!(parse_i32("-"), None);
    assert_eq!(parse_i32("+"), None);
    assert_eq!(parse_i32("1a"), None);
    assert_eq!(parse_i32(" 1"), None);
    assert_eq!(parse_i32("2147483648"), None);
    assert_eq!(parse_i32("-2147483649"), None);
    assert_eq!(parse_i32("99999999999999999999999"), None);
}

#[test]
fn parses_64_bit_extremes() {
    assert_eq!(parse_i64("-9223372036854775808"), Some(i64::MIN));
    assert_eq!(parse_i64("9223372036854775807"), Some(i64::MAX));
    assert_eq!(parse_i64("9223372036854775808"), None);
    assert_eq!(parse_i64("4294967296"), Some(4294967296));
}

#[test]
fn marshals_two_i32_arguments() {
    let vals = marshal_arguments(&vec![ValueKind::I32, ValueKind::I32], &strings(&["2", "3"]), &flags(&strings(&["2", "3"])))
        .unwrap();
    assert_eq!(vals.len(), 2);
    assert!(matches!(vals[0], ArgValue::I32(2)));
    assert!(matches!(vals[1], ArgValue::I32(3)));
}

#[test]
fn single_result_is_printed_alone() {
    assert_eq!(join(&strings(&["5"]), " "), "5");
}

#[test]
fn results_are_joined_with_single_spaces() {
    assert_eq!(join(&strings(&["1", "-2", "3.5"]), " "), "1 -2 3.5");
    assert_eq!(join(&strings(&[]), " "), "");
}

#[test]
fn arity_mismatch_names_both_counts() {
    let err = marshal_arguments(&vec![ValueKind::I32, ValueKind::I32], &strings(&["2"]), &flags(&strings(&["2"])))
        .unwrap_err();
    assert!(matches!(
        err,
        InvokeError::ArityMismatch { expected: 2, received: 1, .. }
    ));
    let text = err.message();
    assert!(text.contains("expected 2 arguments, but received 1"));
    assert_eq!(text, "Function expected 2 arguments, but received 1: \"2\"");
}

#[test]
fn arity_mismatch_echoes_all_arguments() {
    let err = marshal_arguments(&vec![ValueKind::I64], &strings(&["1", "2", "3"]), &flags(&strings(&["1", "2", "3"]))).unwrap_err();
    assert_eq!(err.message(), "Function expected 1 arguments, but received 3: \"1 2 3\"");
}

#[test]
fn bad_integer_argument_is_reported() {
    let err = marshal_arguments(&vec![ValueKind::I32, ValueKind::I64], &strings(&["1", "x"]), &flags(&strings(&["1", "x"])))
        .unwrap_err();
    assert!(matches!(err, InvokeError::BadArgument { kind: ValueKind::I64, .. }));
    assert_eq!(err.message(), "Can't convert `x` into a i64");
}

#[test]
fn reference_kinds_are_unsupported() {
    let err = marshal_arguments(&vec![ValueKind::ExternRef], &strings(&["1"]), &flags(&strings(&["1"]))).unwrap_err();
    assert!(matches!(err, InvokeError::UnsupportedKind { kind: ValueKind::ExternRef, .. }));
    assert_eq!(err.message(), "Don't know how to convert 1 into ExternRef");
}

#[test]
fn float_arguments_keep_their_text() {
    let v = convert_argument(ValueKind::F64, &"2.5".to_string(), true).unwrap();
    assert!(matches!(v, ArgValue::F64(ref t) if t == "2.5"));
    let v = convert_argument(ValueKind::F32, &"-0.5".to_string(), true).unwrap();
    assert!(matches!(v, ArgValue::F32(ref t) if t == "-0.5"));
}

#[test]
fn no_parameters_take_no_arguments() {
    let vals = marshal_arguments(&vec![], &strings(&[]), &flags(&strings(&[]))).unwrap();
    assert!(vals.is_empty());
}

#[test]
fn decimal_rendering() {
    assert_eq!(decimal(0), "0");
    assert_eq!(decimal(10), "10");
    assert_eq!(decimal(12345), "12345");
}

#[test]
fn text_comparisons() {
    assert!(starts_with("add_one", "add"));
    assert!(starts_with("add", ""));
    assert!(!starts_with("ad", "add"));
    assert!(same_text("mul", "mul"));
    assert!(!same_text("mul", "mull"));
}

#[test]
fn first_bad_argument_is_reported_even_when_a_float() {
    let args = strings(&["x", "y"]);
    let err = marshal_arguments(&vec![ValueKind::F32, ValueKind::I32], &args, &flags(&args))
        .unwrap_err();
    assert!(matches!(err, InvokeError::BadArgument { kind: ValueKind::F32, .. }));
    assert_eq!(err.message(), "Can't convert `x` into a f32");
}

#[test]
fn floats_and_integers_convert_together() {
    let args = strings(&["1.5", "7"]);
    let vals = marshal_arguments(&vec![ValueKind::F64, ValueKind::I64], &args, &flags(&args))
        .unwrap();
    assert!(matches!(vals[0], ArgValue::F64(ref t) if t == "1.5"));
    assert!(matches!(vals[1], ArgValue::I64(7)));
}

#[test]
fn missing_float_flag_counts_as_unreadable() {
    let args = strings(&["1.5"]);
    let err = marshal_arguments(&vec![ValueKind::F64], &args, &vec![]).unwrap_err();
    assert_eq!(err.message(), "Can't convert `1.5` into a f64");
    assert!(convert_argument(ValueKind::F32, &"z".to_string(), false).is_err());
}
