use trading_sys::errors::DecodeError;
use trading_sys::numeric::CanonicalNumber;
use trading_sys::quote::decode_quote_pair;
use trading_sys::quote::Quote;

fn val(text: &str) -> serde_json::Value {
    serde_json::from_str(text).unwrap()
}

fn num(s: &str) -> CanonicalNumber {
    CanonicalNumber::from_literal(s).unwrap()
}

#[test]
fn sequence_shape_decodes_price_and_quantity() {
    let q = decode_quote_pair(&val(r#"["0.00123", "150.4", []]"#)).unwrap();
    assert_eq!(q, Quote { price: num("0.00123"), quantity: num("150.4") });
}

#[test]
fn trailing_reserved_arrays_are_ignored() {
    let plain = decode_quote_pair(&val(r#"["0.0024", "10"]"#)).unwrap();
    let one = decode_quote_pair(&val(r#"["0.0024", "10", []]"#)).unwrap();
    let many = decode_quote_pair(&val(r#"["0.0024", "10", [], [], []]"#)).unwrap();
    assert_eq!(plain, one);
    assert_eq!(one, many);
    assert_eq!(one.price.as_str(), "0.0024");
    assert_eq!(one.quantity.as_str(), "10");
}

#[test]
fn map_shape_decodes_price_and_quantity() {
    let q = decode_quote_pair(&val(r#"{"price": 0.0024, "quantity": 10}"#)).unwrap();
    assert_eq!(q.price.as_str(), "0.0024");
    assert_eq!(q.quantity.as_str(), "10");
    let q2 = decode_quote_pair(&val(r#"{"price": "0.0024", "quantity": "10"}"#)).unwrap();
    assert_eq!(q2.price.as_str(), "0.0024");
    assert_eq!(q2.quantity.as_str(), "10");
}

#[test]
fn missing_elements_are_incomplete_quotes() {
    assert_eq!(decode_quote_pair(&val("[]")), Err(DecodeError::IncompleteQuote));
    assert_eq!(decode_quote_pair(&val(r#"["0.0024"]"#)), Err(DecodeError::IncompleteQuote));
    // a reserved array entry does not count toward the two elements
    assert_eq!(
        decode_quote_pair(&val(r#"["0.0024", []]"#)),
        Err(DecodeError::IncompleteQuote)
    );
    assert_eq!(decode_quote_pair(&val(r#"[[], []]"#)), Err(DecodeError::IncompleteQuote));
    assert_eq!(
        decode_quote_pair(&val(r#"{"price": 0.0024}"#)),
        Err(DecodeError::IncompleteQuote)
    );
    assert_eq!(decode_quote_pair(&val("\"0.0024\"")), Err(DecodeError::IncompleteQuote));
}

#[test]
fn reserved_arrays_are_skipped_wherever_they_stand() {
    let q = decode_quote_pair(&val(r#"[[], "0.0024", [], "10"]"#)).unwrap();
    assert_eq!(q.price.as_str(), "0.0024");
    assert_eq!(q.quantity.as_str(), "10");
}

#[test]
fn negative_quantities_are_rejected() {
    assert_eq!(
        decode_quote_pair(&val(r#"["1", "-5"]"#)),
        Err(DecodeError::InvalidNumber)
    );
    assert_eq!(
        decode_quote_pair(&val(r#"{"price": "1", "quantity": "-5"}"#)),
        Err(DecodeError::InvalidNumber)
    );
    // prices carry no sign restriction
    let q = decode_quote_pair(&val(r#"["-1", "5"]"#)).unwrap();
    assert_eq!(q.price.as_str(), "-1");
}

#[test]
fn non_numeric_elements_are_invalid_numbers() {
    assert_eq!(
        decode_quote_pair(&val(r#"["zero", "10"]"#)),
        Err(DecodeError::InvalidNumber)
    );
    assert_eq!(
        decode_quote_pair(&val(r#"["0.0024", null]"#)),
        Err(DecodeError::InvalidNumber)
    );
}
