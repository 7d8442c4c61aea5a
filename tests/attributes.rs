use otel_binding::attribute::{to_attribute_list, to_attribute_value, to_host_value, AttributeValue, HostValue};
use otel_binding::error::ErrorKind;

fn round_trip(v: HostValue) -> HostValue {
    let a = to_attribute_value(&v).expect("scalar values convert");
    to_host_value(&a)
}

#[test]
fn bool_values_round_trip() {
    assert!(matches!(round_trip(HostValue::Bool(true)), HostValue::Bool(true)));
    assert!(matches!(round_trip(HostValue::Bool(false)), HostValue::Bool(false)));
}

#[test]
fn integer_values_round_trip() {
    for i in [0i64, 1, -1, i64::MIN, i64::MAX, 42] {
        assert!(matches!(round_trip(HostValue::Integer(i)), HostValue::Integer(j) if j == i));
    }
}

#[test]
fn float_values_round_trip() {
    for f in [0.0f64, -0.0, 1.5, -2.25, f64::MAX, f64::MIN_POSITIVE] {
        let back = round_trip(HostValue::Float(f.to_bits()));
        assert!(matches!(back, HostValue::Float(b) if f64::from_bits(b) == f && b == f.to_bits()));
    }
}

#[test]
fn text_values_round_trip() {
    for s in ["", "svc", "héllo wörld"] {
        assert!(matches!(round_trip(HostValue::Text(s.to_string())), HostValue::Text(t) if t == s));
    }
}

#[test]
fn scalar_values_take_their_variant() {
    assert!(matches!(to_attribute_value(&HostValue::Bool(true)), Ok(AttributeValue::Bool(true))));
    assert!(matches!(to_attribute_value(&HostValue::Integer(7)), Ok(AttributeValue::I64(7))));
    assert!(matches!(to_attribute_value(&HostValue::Float(2.5f64.to_bits())), Ok(AttributeValue::F64(b)) if f64::from_bits(b) == 2.5));
    assert!(matches!(to_attribute_value(&HostValue::Text("x".to_string())), Ok(AttributeValue::Str(s)) if s == "x"));
}

#[test]
fn sequences_are_rejected() {
    let v = HostValue::Sequence(vec![HostValue::Integer(1), HostValue::Integer(2)]);
    let e = to_attribute_value(&v).unwrap_err();
    assert_eq!(e.kind, ErrorKind::TypeConversion);
    let empty = HostValue::Sequence(vec![]);
    assert_eq!(to_attribute_value(&empty).unwrap_err().kind, ErrorKind::TypeConversion);
}

#[test]
fn nil_and_symbols_are_rejected() {
    assert_eq!(to_attribute_value(&HostValue::Nil).unwrap_err().kind, ErrorKind::TypeConversion);
    assert_eq!(
        to_attribute_value(&HostValue::Symbol("sym".to_string())).unwrap_err().kind,
        ErrorKind::TypeConversion
    );
}

#[test]
fn batch_keeps_order_and_duplicates() {
    let pairs = vec![
        ("b".to_string(), HostValue::Integer(1)),
        ("a".to_string(), HostValue::Text("x".to_string())),
        ("b".to_string(), HostValue::Bool(false)),
    ];
    let l = to_attribute_list(&pairs).unwrap();
    assert_eq!(l.len(), 3);
    assert_eq!(l[0].0, "b");
    assert!(matches!(l[0].1, AttributeValue::I64(1)));
    assert_eq!(l[1].0, "a");
    assert!(matches!(&l[1].1, AttributeValue::Str(s) if s == "x"));
    assert_eq!(l[2].0, "b");
    assert!(matches!(l[2].1, AttributeValue::Bool(false)));
}

#[test]
fn batch_with_one_unsupported_value_fails() {
    let pairs = vec![
        ("a".to_string(), HostValue::Integer(1)),
        ("b".to_string(), HostValue::Sequence(vec![])),
    ];
    assert_eq!(to_attribute_list(&pairs).unwrap_err().kind, ErrorKind::TypeConversion);
}

#[test]
fn empty_batch_converts_to_nothing() {
    assert!(to_attribute_list(&vec![]).unwrap().is_empty());
}
