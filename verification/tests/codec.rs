//! Behavioural tests of the decode/encode layer, driven through concrete
//! wire values.

use gsi_codec::coordinates::Coordinates;
use gsi_codec::coordinates::EPSILON_BITS;
use gsi_codec::coordinates::decode_vector;
use gsi_codec::coordinates::encode_vector;
use gsi_codec::error::DecodeError;
use gsi_codec::numeric::decode_numeric_string;
use gsi_codec::numeric::encode_numeric_string;
use gsi_codec::numeric::extract_u16;
use gsi_codec::numeric::parse_finite_f64;
use gsi_codec::wire::WireValue;

fn txt(s: &str) -> WireValue {
    WireValue::Text(s.to_string())
}

fn num(v: f64) -> WireValue {
    WireValue::Num(v.to_bits())
}

fn obj(pairs: Vec<(&str, WireValue)>) -> WireValue {
    WireValue::Object(pairs.into_iter().map(|(k, v)| (k.to_string(), v)).collect())
}

fn coords(x: f64, y: f64, z: f64) -> Coordinates {
    Coordinates { x: x.to_bits(), y: y.to_bits(), z: z.to_bits() }
}

#[test]
fn vector_object_round_trip() {
    for (x, y, z) in [
        (1.0, 2.0, 3.0),
        (-1.5, 0.0, 2.25e10),
        (f64::EPSILON, -f64::EPSILON, 1e-300),
        (f64::MAX, f64::MIN, -0.0),
    ] {
        let c = coords(x, y, z);
        assert_eq!(decode_vector(&encode_vector(&c)), Ok(c));
    }
}

#[test]
fn vector_string_and_object_agree() {
    let from_text = decode_vector(&txt("1.0,2.0,3.0")).unwrap();
    let from_object =
        decode_vector(&obj(vec![("x", num(1.0)), ("y", num(2.0)), ("z", num(3.0))])).unwrap();
    assert_eq!(from_text, from_object);
    assert_eq!(from_text, coords(1.0, 2.0, 3.0));
}

#[test]
fn vector_string_wrong_token_count() {
    assert_eq!(decode_vector(&txt("1,2")), Err(DecodeError::InvalidVector));
    assert_eq!(decode_vector(&txt("1,2,3,4")), Err(DecodeError::InvalidVector));
    assert_eq!(decode_vector(&txt("")), Err(DecodeError::InvalidVector));
}

#[test]
fn vector_string_bad_token() {
    assert_eq!(decode_vector(&txt("1,a,3")), Err(DecodeError::InvalidNumber));
    assert_eq!(decode_vector(&txt("1,,3")), Err(DecodeError::InvalidNumber));
}

#[test]
fn vector_string_trims_token_whitespace() {
    let c = decode_vector(&txt(" 1.0 ,\t2.5 , -3.75")).unwrap();
    assert_eq!(c, coords(1.0, 2.5, -3.75));
}

#[test]
fn vector_object_duplicate_key() {
    let w = obj(vec![("x", num(1.0)), ("x", num(2.0)), ("y", num(0.0)), ("z", num(0.0))]);
    assert_eq!(decode_vector(&w), Err(DecodeError::DuplicateField("x".to_string())));
}

#[test]
fn vector_object_missing_key() {
    let w = obj(vec![("x", num(1.0)), ("y", num(2.0))]);
    assert_eq!(decode_vector(&w), Err(DecodeError::MissingField("z".to_string())));
}

#[test]
fn vector_object_ignores_unknown_keys_any_order() {
    let w = obj(vec![
        ("spin", txt("fast")),
        ("z", num(3.0)),
        ("y", num(2.0)),
        ("w", num(9.0)),
        ("x", num(1.0)),
    ]);
    assert_eq!(decode_vector(&w), Ok(coords(1.0, 2.0, 3.0)));
}

#[test]
fn vector_object_component_type_mismatch() {
    let w = obj(vec![("x", txt("1.0")), ("y", num(2.0)), ("z", num(3.0))]);
    assert_eq!(decode_vector(&w), Err(DecodeError::TypeMismatch));
}

#[test]
fn vector_unsupported_shapes() {
    assert_eq!(decode_vector(&num(1.0)), Err(DecodeError::UnsupportedShape));
    assert_eq!(decode_vector(&WireValue::Null), Err(DecodeError::UnsupportedShape));
    assert_eq!(decode_vector(&WireValue::Bool(true)), Err(DecodeError::UnsupportedShape));
    assert_eq!(
        decode_vector(&WireValue::List(vec![num(1.0), num(2.0), num(3.0)])),
        Err(DecodeError::UnsupportedShape)
    );
}

#[test]
fn epsilon_constant_matches_machine_epsilon() {
    assert_eq!(EPSILON_BITS, f64::EPSILON.to_bits());
}

#[test]
fn is_zero_within_epsilon() {
    let tiny = f64::EPSILON / 2.0;
    let c = coords(tiny, -tiny, 0.0);
    assert!(c.is_zero());
    assert!(coords(0.0, -0.0, 1e-300).is_zero());
}

#[test]
fn is_zero_false_at_epsilon_or_beyond() {
    assert!(!coords(f64::EPSILON, 0.0, 0.0).is_zero());
    assert!(!coords(0.0, -f64::EPSILON, 0.0).is_zero());
    assert!(!coords(0.0, 0.0, 1.0).is_zero());
    assert!(!coords(f64::NAN, 0.0, 0.0).is_zero());
    assert!(!coords(f64::INFINITY, 0.0, 0.0).is_zero());
}

#[test]
fn numeric_string_decodes_quoted_number() {
    assert_eq!(decode_numeric_string(&txt("12.5")), Ok(12.5f64.to_bits()));
    assert_eq!(decode_numeric_string(&txt("0")), Ok(0.0f64.to_bits()));
    assert_eq!(decode_numeric_string(&txt("-3e2")), Ok((-300.0f64).to_bits()));
}

#[test]
fn numeric_string_rejects_bare_number() {
    assert_eq!(decode_numeric_string(&num(12.5)), Err(DecodeError::TypeMismatch));
    assert_eq!(decode_numeric_string(&WireValue::Null), Err(DecodeError::TypeMismatch));
    assert_eq!(decode_numeric_string(&WireValue::Bool(false)), Err(DecodeError::TypeMismatch));
}

#[test]
fn numeric_string_rejects_garbage_and_non_finite() {
    assert_eq!(decode_numeric_string(&txt("12.5abc")), Err(DecodeError::InvalidNumber));
    assert_eq!(decode_numeric_string(&txt("")), Err(DecodeError::InvalidNumber));
    assert_eq!(decode_numeric_string(&txt("NaN")), Err(DecodeError::InvalidNumber));
    assert_eq!(decode_numeric_string(&txt("inf")), Err(DecodeError::InvalidNumber));
}

#[test]
fn numeric_string_encode_decode_round_trip() {
    let b = 42.75f64.to_bits();
    assert_eq!(decode_numeric_string(&encode_numeric_string(b)), Ok(b));
}

#[test]
fn parse_finite_f64_returns_value_bits() {
    assert_eq!(parse_finite_f64("2.5"), Some(2.5f64.to_bits()));
    assert_eq!(parse_finite_f64("-0.125"), Some((-0.125f64).to_bits()));
    assert_eq!(parse_finite_f64("not a number"), None);
}

#[test]
fn extract_u16_recognises_small_integers() {
    for n in [0u16, 1, 2, 3, 255, 256, 1024, 65534, 65535] {
        assert_eq!(extract_u16((n as f64).to_bits()), Some(n));
    }
}

#[test]
fn extract_u16_rejects_non_integers_and_out_of_range() {
    assert_eq!(extract_u16(1.5f64.to_bits()), None);
    assert_eq!(extract_u16((-1.0f64).to_bits()), None);
    assert_eq!(extract_u16((-0.0f64).to_bits()), None);
    assert_eq!(extract_u16(65536.0f64.to_bits()), None);
    assert_eq!(extract_u16(f64::NAN.to_bits()), None);
    assert_eq!(extract_u16(f64::INFINITY.to_bits()), None);
    assert_eq!(extract_u16(0.5f64.to_bits()), None);
}

#[test]
fn encode_vector_emits_object_form() {
    let c = coords(1.5, -2.0, 0.0);
    match encode_vector(&c) {
        WireValue::Object(pairs) => {
            assert_eq!(pairs.len(), 3);
            assert_eq!(pairs[0], ("x".to_string(), WireValue::Num(1.5f64.to_bits())));
            assert_eq!(pairs[1], ("y".to_string(), WireValue::Num((-2.0f64).to_bits())));
            assert_eq!(pairs[2], ("z".to_string(), WireValue::Num(0.0f64.to_bits())));
        },
        other => panic!("expected an object, got {:?}", other),
    }
}

#[test]
fn encode_vector_keeps_object_form_after_string_decode() {
    let c = decode_vector(&txt("4.0,5.0,6.0")).unwrap();
    assert!(matches!(encode_vector(&c), WireValue::Object(_)));
}

#[test]
fn numeric_string_encode_is_string_shaped() {
    assert_eq!(encode_numeric_string(12.5f64.to_bits()), WireValue::NumStr(12.5f64.to_bits()));
}

#[test]
fn vector_string_token_whitespace_only_surrounding() {
    assert_eq!(decode_vector(&txt("1 0,2.0,3.0")), Err(DecodeError::InvalidNumber));
}
