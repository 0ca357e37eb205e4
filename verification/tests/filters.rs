use grok_filter::{
    apply_filter, FloatBits, Function, FunctionArgument, GrokFilter, GrokRuntimeError,
    GrokStaticError, Value,
};

fn fb(x: f64) -> FloatBits {
    FloatBits::new(x.to_bits()).unwrap()
}

fn bytes(s: &str) -> Value {
    Value::Bytes(s.as_bytes().to_vec())
}

fn lit(v: Value) -> FunctionArgument {
    FunctionArgument::Arg(v)
}

fn nested(name: &str, args: Option<Vec<FunctionArgument>>) -> FunctionArgument {
    FunctionArgument::Function(Function {
        name: name.to_string(),
        args,
    })
}

fn compile(name: &str, args: Option<Vec<FunctionArgument>>) -> Result<GrokFilter, GrokStaticError> {
    GrokFilter::try_from(&Function {
        name: name.to_string(),
        args,
    })
}

fn expect_integer(v: &Value) -> i64 {
    match v {
        Value::Integer(i) => *i,
        _ => panic!("expected an integer value"),
    }
}

fn expect_float_bits(v: &Value) -> u64 {
    match v {
        Value::Float(f) => f.bits(),
        _ => panic!("expected a float value"),
    }
}

fn expect_bytes(v: &Value) -> Vec<u8> {
    match v {
        Value::Bytes(b) => b.clone(),
        _ => panic!("expected a byte-string value"),
    }
}

#[test]
fn compile_integer_and_apply() {
    let spec = compile("integer", None).unwrap();
    assert!(matches!(spec, GrokFilter::Integer));
    let out = apply_filter(&bytes("42"), &spec).unwrap();
    assert_eq!(expect_integer(&out), 42);
}

#[test]
fn integer_rejects_non_numeric() {
    let spec = compile("integer", None).unwrap();
    let err = apply_filter(&bytes("abc"), &spec).unwrap_err();
    let GrokRuntimeError::FailedToApplyFilter(filter, value) = err;
    assert_eq!(filter, "Integer");
    assert_eq!(value, "abc");
}

#[test]
fn integer_bounds() {
    let spec = compile("integer", None).unwrap();
    let out = apply_filter(&bytes("9223372036854775807"), &spec).unwrap();
    assert_eq!(expect_integer(&out), i64::MAX);
    let out = apply_filter(&bytes("-9223372036854775808"), &spec).unwrap();
    assert_eq!(expect_integer(&out), i64::MIN);
    assert!(apply_filter(&bytes("9223372036854775808"), &spec).is_err());
    assert!(apply_filter(&bytes("+17"), &spec).is_ok());
    assert!(apply_filter(&bytes(""), &spec).is_err());
    assert!(apply_filter(&bytes("-"), &spec).is_err());
    assert!(apply_filter(&bytes("0042"), &spec).is_ok());
    assert!(apply_filter(&Value::Null, &spec).is_err());
}

#[test]
fn scale_integer_input() {
    let spec = compile("scale", Some(vec![lit(Value::Integer(100))])).unwrap();
    match &spec {
        GrokFilter::Scale(k) => assert_eq!(k.bits(), (100.0f64).to_bits()),
        _ => panic!("expected a scale descriptor"),
    }
    let out = apply_filter(&Value::Integer(5), &spec).unwrap();
    assert_eq!(expect_float_bits(&out), (500.0f64).to_bits());
}

#[test]
fn scale_float_and_bytes_input() {
    let spec = compile("scale", Some(vec![lit(Value::Float(fb(2.0)))])).unwrap();
    let out = apply_filter(&Value::Float(fb(3.5)), &spec).unwrap();
    assert_eq!(expect_float_bits(&out), (7.0f64).to_bits());
    let out = apply_filter(&bytes("2.5"), &spec).unwrap();
    assert_eq!(expect_float_bits(&out), (5.0f64).to_bits());
    assert!(apply_filter(&bytes("x"), &spec).is_err());
}

#[test]
fn scale_finite_never_fails() {
    let spec = compile("scale", Some(vec![lit(Value::Float(fb(1.0e308)))])).unwrap();
    // Overflow to infinity is a value, not a failure; only a NaN product fails.
    let out = apply_filter(&Value::Float(fb(1.0e308)), &spec).unwrap();
    assert_eq!(expect_float_bits(&out), f64::INFINITY.to_bits());
}

#[test]
fn scale_nan_product_fails() {
    // An infinity times zero is the one NaN product; it is a failure.
    let spec = compile("scale", Some(vec![lit(Value::Float(fb(0.0)))])).unwrap();
    let inf = FloatBits::new(f64::INFINITY.to_bits()).unwrap();
    let err = apply_filter(&Value::Float(inf), &spec).unwrap_err();
    let GrokRuntimeError::FailedToApplyFilter(filter, value) = err;
    assert_eq!(filter, "Scale");
    assert_eq!(value, "0x7ff0000000000000");
}

#[test]
fn scale_rejects_missing_argument() {
    assert!(matches!(
        compile("scale", None),
        Err(GrokStaticError::InvalidFunctionArguments(n)) if n == "scale"
    ));
    assert!(matches!(
        compile("scale", Some(vec![])),
        Err(GrokStaticError::InvalidFunctionArguments(_))
    ));
    assert!(matches!(
        compile("scale", Some(vec![lit(bytes("2"))])),
        Err(GrokStaticError::InvalidFunctionArguments(_))
    ));
}

#[test]
fn array_default_tokenizer() {
    let spec = compile("array", Some(vec![])).unwrap();
    match &spec {
        GrokFilter::Array(brackets, delimiter, element) => {
            assert!(brackets.is_none());
            assert!(delimiter.is_none());
            assert!(element.is_none());
        }
        _ => panic!("expected an array descriptor"),
    }
    let out = apply_filter(&bytes("1,2,3"), &spec).unwrap();
    match out {
        Value::Array(items) => {
            assert_eq!(items.len(), 3);
            assert_eq!(expect_bytes(&items[0]), b"1".to_vec());
            assert_eq!(expect_bytes(&items[1]), b"2".to_vec());
            assert_eq!(expect_bytes(&items[2]), b"3".to_vec());
        }
        _ => panic!("expected an array value"),
    }
}

#[test]
fn array_bracket_and_delimiter_literals() {
    let spec = compile("array", Some(vec![lit(bytes("[]")), lit(bytes(";"))])).unwrap();
    match &spec {
        GrokFilter::Array(brackets, delimiter, element) => {
            assert_eq!(*brackets, Some(('[', ']')));
            assert_eq!(delimiter.as_ref().unwrap(), &b";".to_vec());
            assert!(element.is_none());
        }
        _ => panic!("expected an array descriptor"),
    }
    let out = apply_filter(&bytes("[a;b]"), &spec).unwrap();
    match out {
        Value::Array(items) => {
            assert_eq!(items.len(), 2);
            assert_eq!(expect_bytes(&items[0]), b"a".to_vec());
            assert_eq!(expect_bytes(&items[1]), b"b".to_vec());
        }
        _ => panic!("expected an array value"),
    }
    // Without the bracket wrapping, tokenizing fails.
    assert!(apply_filter(&bytes("a;b"), &spec).is_err());
}

#[test]
fn array_single_char_bracket_literal() {
    let spec = compile("array", Some(vec![lit(bytes("|")), lit(bytes(","))])).unwrap();
    match &spec {
        GrokFilter::Array(brackets, _, _) => assert_eq!(*brackets, Some(('|', '|'))),
        _ => panic!("expected an array descriptor"),
    }
}

#[test]
fn array_with_element_filter() {
    let spec = compile(
        "array",
        Some(vec![lit(bytes(",")), nested("integer", None)]),
    )
    .unwrap();
    let out = apply_filter(&bytes("1,2,3"), &spec).unwrap();
    match out {
        Value::Array(items) => {
            assert_eq!(items.len(), 3);
            assert_eq!(expect_integer(&items[0]), 1);
            assert_eq!(expect_integer(&items[1]), 2);
            assert_eq!(expect_integer(&items[2]), 3);
        }
        _ => panic!("expected an array value"),
    }
    // Fail-fast: the first bad element fails the whole application.
    let err = apply_filter(&bytes("1,x,3"), &spec).unwrap_err();
    let GrokRuntimeError::FailedToApplyFilter(filter, value) = err;
    assert_eq!(filter, "Integer");
    assert_eq!(value, "x");
}

#[test]
fn null_if_matches_and_passes_through() {
    let spec = compile("nullIf", Some(vec![lit(bytes("-"))])).unwrap();
    assert!(matches!(
        apply_filter(&bytes("-"), &spec).unwrap(),
        Value::Null
    ));
    let out = apply_filter(&bytes("x"), &spec).unwrap();
    assert_eq!(expect_bytes(&out), b"x".to_vec());
}

#[test]
fn null_if_twice_is_identity() {
    let spec = compile("nullIf", Some(vec![lit(bytes("-"))])).unwrap();
    let once = apply_filter(&bytes("x"), &spec).unwrap();
    let twice = apply_filter(&once, &spec).unwrap();
    assert_eq!(expect_bytes(&once), b"x".to_vec());
    assert_eq!(expect_bytes(&twice), b"x".to_vec());
}

#[test]
fn null_if_compares_in_normal_form() {
    // An invalid UTF-8 sentinel normalizes to the replacement character, so
    // it matches the replacement character's own bytes.
    let spec = compile("nullIf", Some(vec![lit(Value::Bytes(vec![0xff]))])).unwrap();
    let out = apply_filter(&Value::Bytes(vec![0xef, 0xbf, 0xbd]), &spec).unwrap();
    assert!(matches!(out, Value::Null));
}

#[test]
fn null_if_rejects_missing_argument() {
    assert!(matches!(
        compile("nullIf", Some(vec![])),
        Err(GrokStaticError::InvalidFunctionArguments(n)) if n == "nullIf"
    ));
    assert!(matches!(
        compile("nullIf", None),
        Err(GrokStaticError::InvalidFunctionArguments(_))
    ));
}

#[test]
fn json_decodes_object() {
    let spec = compile("json", None).unwrap();
    let out = apply_filter(&bytes("{\"a\":1}"), &spec).unwrap();
    match out {
        Value::Object(fields) => {
            assert_eq!(fields.len(), 1);
            assert_eq!(fields[0].0, b"a".to_vec());
            assert_eq!(expect_integer(&fields[0].1), 1);
        }
        _ => panic!("expected an object value"),
    }
}

#[test]
fn json_scalars_and_failures() {
    let spec = compile("json", None).unwrap();
    assert!(matches!(
        apply_filter(&bytes("null"), &spec).unwrap(),
        Value::Null
    ));
    assert!(matches!(
        apply_filter(&bytes("true"), &spec).unwrap(),
        Value::Boolean(true)
    ));
    assert_eq!(
        expect_float_bits(&apply_filter(&bytes("1.5"), &spec).unwrap()),
        (1.5f64).to_bits()
    );
    assert!(apply_filter(&bytes("{oops"), &spec).is_err());
    assert!(apply_filter(&Value::Integer(1), &spec).is_err());
}

#[test]
fn unknown_filter_name() {
    assert!(matches!(
        compile("foo", None),
        Err(GrokStaticError::UnknownFilter(n)) if n == "foo"
    ));
}

#[test]
fn three_char_bracket_literal_is_invalid() {
    let r = compile(
        "array",
        Some(vec![
            lit(bytes("{[}")),
            lit(bytes(",")),
            nested("integer", None),
        ]),
    );
    assert!(matches!(
        r,
        Err(GrokStaticError::InvalidFunctionArguments(n)) if n == "array"
    ));
}

#[test]
fn array_rejects_too_many_arguments() {
    let r = compile(
        "array",
        Some(vec![
            lit(bytes("[]")),
            lit(bytes(",")),
            nested("integer", None),
            lit(bytes("extra")),
        ]),
    );
    assert!(matches!(
        r,
        Err(GrokStaticError::InvalidFunctionArguments(_))
    ));
}

#[test]
fn integer_ext_truncates_scientific() {
    let spec = compile("integerExt", None).unwrap();
    let out = apply_filter(&bytes("1e3"), &spec).unwrap();
    assert_eq!(expect_integer(&out), 1000);
    let out = apply_filter(&bytes("12.7"), &spec).unwrap();
    assert_eq!(expect_integer(&out), 12);
    assert!(apply_filter(&bytes("abc"), &spec).is_err());
}

#[test]
fn number_parses_scientific() {
    let spec = compile("number", None).unwrap();
    let out = apply_filter(&bytes("1.5e2"), &spec).unwrap();
    assert_eq!(expect_float_bits(&out), (150.0f64).to_bits());
    let spec = compile("numberExt", None).unwrap();
    let out = apply_filter(&bytes("1.5e2"), &spec).unwrap();
    assert_eq!(expect_float_bits(&out), (150.0f64).to_bits());
    assert!(apply_filter(&bytes("abc"), &spec).is_err());
}

#[test]
fn case_folding() {
    let lower = compile("lowercase", None).unwrap();
    let upper = compile("uppercase", None).unwrap();
    let out = apply_filter(&bytes("AbC"), &lower).unwrap();
    assert_eq!(expect_bytes(&out), b"abc".to_vec());
    let out = apply_filter(&bytes("AbC"), &upper).unwrap();
    assert_eq!(expect_bytes(&out), b"ABC".to_vec());
    assert!(apply_filter(&Value::Integer(1), &lower).is_err());
}

#[test]
fn zero_argument_filters_ignore_arguments() {
    let spec = compile("integer", Some(vec![lit(bytes("ignored"))])).unwrap();
    assert!(matches!(spec, GrokFilter::Integer));
}

#[test]
fn runtime_failure_renders_value() {
    let spec = compile("integer", None).unwrap();
    let err = apply_filter(&Value::Integer(-5), &spec).unwrap_err();
    let GrokRuntimeError::FailedToApplyFilter(filter, value) = err;
    assert_eq!(filter, "Integer");
    assert_eq!(value, "-5");
}

#[test]
fn float_bits_rejects_nan() {
    assert!(FloatBits::new(f64::NAN.to_bits()).is_none());
    assert!(FloatBits::new((2.5f64).to_bits()).is_some());
}

#[test]
fn array_empty_delimiter_fails_at_runtime() {
    // An empty delimiter compiles (it is a byte-string literal) but cannot
    // split, so applying is a tokenize failure.
    let spec = compile("array", Some(vec![lit(bytes(""))])).unwrap();
    let err = apply_filter(&bytes("1,2"), &spec).unwrap_err();
    let GrokRuntimeError::FailedToApplyFilter(filter, value) = err;
    assert_eq!(filter, "Array");
    assert_eq!(value, "1,2");
}

#[test]
fn array_tokenizes_in_normal_form() {
    // Invalid UTF-8 normalizes to the replacement character before splitting.
    let spec = compile("array", Some(vec![])).unwrap();
    let out = apply_filter(&Value::Bytes(vec![0xff, 0x2c, 0x61]), &spec).unwrap();
    match out {
        Value::Array(items) => {
            assert_eq!(items.len(), 2);
            match &items[0] {
                Value::Bytes(b) => assert_eq!(b, &vec![0xef, 0xbf, 0xbd]),
                _ => panic!("expected bytes"),
            }
            match &items[1] {
                Value::Bytes(b) => assert_eq!(b, &b"a".to_vec()),
                _ => panic!("expected bytes"),
            }
        }
        _ => panic!("expected an array value"),
    }
}
