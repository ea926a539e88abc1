use trading_sys::errors::DecodeError;
use trading_sys::numeric::check_json_number;
use trading_sys::numeric::decode_number;
use trading_sys::numeric::decode_optional_number;
use trading_sys::numeric::u64_to_dec;
use trading_sys::numeric::CanonicalNumber;

fn val(text: &str) -> serde_json::Value {
    serde_json::from_str(text).unwrap()
}

#[test]
fn quoted_numeric_strings_agree_with_float_parsing() {
    // the canonical literal parses to exactly the same float the wire
    // string would
    for s in ["0.001", "100", "-12.5", "1e3", "0", "250.00", "6.02e-23"] {
        let wire = format!("\"{}\"", s);
        let n = decode_number(&val(&wire)).unwrap();
        assert_eq!(n.as_str(), s);
        assert_eq!(n.as_str().parse::<f64>().unwrap(), s.parse::<f64>().unwrap());
    }
}

#[test]
fn integers_and_floats_are_unified() {
    assert_eq!(decode_number(&val("100")).unwrap().as_str(), "100");
    assert_eq!(decode_number(&val("-7")).unwrap().as_str(), "-7");
    assert_eq!(decode_number(&val("0.5")).unwrap().as_str(), "0.5");
    assert_eq!(
        decode_number(&val("18446744073709551615")).unwrap().as_str(),
        "18446744073709551615"
    );
    assert_eq!(
        decode_number(&val("-9223372036854775808")).unwrap().as_str(),
        "-9223372036854775808"
    );
}

#[test]
fn non_numeric_shapes_are_rejected() {
    for wire in ["null", "true", "false", "{}", "[1]", "\"\"", "\"12x\"", "\"1.\"", "\"+5\""] {
        assert_eq!(decode_number(&val(wire)), Err(DecodeError::InvalidNumber), "input {}", wire);
    }
}

#[test]
fn optional_numbers_accept_null_and_absence() {
    assert_eq!(decode_optional_number(None), Ok(None));
    let null = val("null");
    assert_eq!(decode_optional_number(Some(&null)), Ok(None));
    let present = val("\"2.5\"");
    assert_eq!(
        decode_optional_number(Some(&present)).unwrap().unwrap().as_str(),
        "2.5"
    );
    let bad = val("false");
    assert_eq!(decode_optional_number(Some(&bad)), Err(DecodeError::InvalidNumber));
}

#[test]
fn literal_grammar_matches_json_numbers() {
    for good in ["0", "-0", "10.25", "2e10", "2E+10", "3.5e-2", "900"] {
        assert!(check_json_number(good), "should accept {}", good);
    }
    for bad in ["", "-", "00", "01", ".5", "5.", "1e", "1e+", "+1", "1.2.3", "abc", "1 "] {
        assert!(!check_json_number(bad), "should reject {}", bad);
    }
}

#[test]
fn decimal_rendering_round_trips() {
    assert_eq!(u64_to_dec(0), "0");
    assert_eq!(u64_to_dec(7), "7");
    assert_eq!(u64_to_dec(1042), "1042");
    assert_eq!(u64_to_dec(u64::MAX), "18446744073709551615");
}

#[test]
fn canonical_number_accessors() {
    let n = CanonicalNumber::from_literal("-3.5").unwrap();
    assert!(n.is_negative());
    let p = CanonicalNumber::from_literal("3.5").unwrap();
    assert!(!p.is_negative());
    assert!(CanonicalNumber::from_literal("not a number").is_none());
}
