use otel_binding::attribute::{AttributeValue, HostValue};
use otel_binding::error::ErrorKind;
use otel_binding::span::Span;
use otel_binding::tracer::SpanOptions;
use otel_binding::tracer_provider::TracerProvider;

fn lookup<'a>(s: &'a Span, key: &str) -> Option<&'a AttributeValue> {
    s.attributes.iter().find(|(k, _)| k == key).map(|(_, v)| v)
}

#[test]
fn version_without_name_is_invalid() {
    let p = TracerProvider::new();
    let e = p.tracer(None, Some("1.0".to_string())).unwrap_err();
    assert_eq!(e.kind, ErrorKind::InvalidArgument);
}

#[test]
fn no_name_no_version_gives_empty_name() {
    let p = TracerProvider::new();
    let t = p.tracer(None, None).unwrap();
    assert_eq!(t.name(), "");
    assert_eq!(t.version(), &None);
}

#[test]
fn named_tracers_with_and_without_version() {
    let p = TracerProvider::new();
    let a = p.tracer(Some("svc".to_string()), None).unwrap();
    let b = p.tracer(Some("svc".to_string()), Some("2.0".to_string())).unwrap();
    assert_eq!(a.name(), "svc");
    assert_eq!(a.version(), &None);
    assert_eq!(b.name(), "svc");
    assert_eq!(b.version().as_deref(), Some("2.0"));
}

#[test]
fn shutdown_succeeds_and_is_repeatable() {
    let p = TracerProvider::new();
    assert!(p.shutdown(None).is_ok());
    assert!(p.shutdown(Some(HostValue::Integer(5))).is_ok());
    assert!(p.tracer(Some("late".to_string()), None).is_ok());
}

#[test]
fn set_attribute_overwrites_same_key() {
    let mut s = Span::new("op".to_string(), "svc".to_string(), None);
    s.set_attribute("k".to_string(), &HostValue::Integer(1)).unwrap();
    s.set_attribute("k".to_string(), &HostValue::Text("two".to_string())).unwrap();
    s.set_attribute("j".to_string(), &HostValue::Bool(true)).unwrap();
    assert_eq!(s.attributes.len(), 2);
    assert!(matches!(lookup(&s, "k"), Some(AttributeValue::Str(v)) if v == "two"));
    assert!(matches!(lookup(&s, "j"), Some(AttributeValue::Bool(true))));
}

#[test]
fn set_attribute_with_unsupported_value_changes_nothing() {
    let mut s = Span::new("op".to_string(), "svc".to_string(), None);
    let e = s.set_attribute("k".to_string(), &HostValue::Sequence(vec![])).unwrap_err();
    assert_eq!(e.kind, ErrorKind::TypeConversion);
    assert!(s.attributes.is_empty());
}

#[test]
fn add_attributes_is_all_or_nothing() {
    let mut s = Span::new("op".to_string(), "svc".to_string(), None);
    let batch = vec![
        ("a".to_string(), HostValue::Integer(1)),
        ("b".to_string(), HostValue::Sequence(vec![HostValue::Text("oops-unsupported-type".to_string())])),
    ];
    assert_eq!(s.add_attributes(&batch).unwrap_err().kind, ErrorKind::TypeConversion);
    assert!(lookup(&s, "a").is_none());
    assert!(lookup(&s, "b").is_none());
}

#[test]
fn add_attributes_applies_in_order() {
    let mut s = Span::new("op".to_string(), "svc".to_string(), None);
    s.set_attribute("a".to_string(), &HostValue::Integer(0)).unwrap();
    let batch = vec![
        ("a".to_string(), HostValue::Integer(1)),
        ("b".to_string(), HostValue::Float(0.5f64.to_bits())),
        ("a".to_string(), HostValue::Integer(3)),
    ];
    let applied = s.add_attributes(&batch).unwrap();
    assert_eq!(applied.len(), 3);
    assert_eq!(s.attributes.len(), 2);
    assert!(matches!(lookup(&s, "a"), Some(AttributeValue::I64(3))));
    assert!(matches!(lookup(&s, "b"), Some(AttributeValue::F64(b)) if f64::from_bits(*b) == 0.5));
}

#[test]
fn finish_without_timestamp_ends_span() {
    let mut s = Span::new("op".to_string(), "svc".to_string(), None);
    assert!(s.is_recording());
    assert!(s.finish(None).is_ok());
    assert!(!s.is_recording());
}

#[test]
fn finish_with_timestamp_is_unimplemented() {
    let mut s = Span::new("op".to_string(), "svc".to_string(), None);
    let e = s.finish(Some(HostValue::Integer(1_700_000_000))).unwrap_err();
    assert_eq!(e.kind, ErrorKind::Unimplemented);
    assert!(s.is_recording());
}

#[test]
fn ended_span_ignores_mutation() {
    let mut s = Span::new("op".to_string(), "svc".to_string(), None);
    s.finish(None).unwrap();
    s.update_name("renamed".to_string());
    assert_eq!(s.name, "op");
    assert!(s.set_attribute("k".to_string(), &HostValue::Integer(1)).is_ok());
    assert!(s.attributes.is_empty());
}

#[test]
fn update_name_renames_live_span() {
    let mut s = Span::new("op".to_string(), "svc".to_string(), None);
    s.update_name("other".to_string());
    assert_eq!(s.name, "other");
}

#[test]
fn start_span_with_attributes() {
    let p = TracerProvider::new();
    let t = p.tracer(Some("svc".to_string()), None).unwrap();
    let opts = SpanOptions::with_attributes(vec![
        ("x".to_string(), HostValue::Integer(1)),
        ("x".to_string(), HostValue::Integer(2)),
    ]);
    let s = t.start_span("".to_string(), opts).unwrap();
    assert_eq!(s.name, "");
    assert_eq!(s.tracer_name, "svc");
    assert_eq!(s.tracer_version, None);
    assert!(s.is_recording());
    assert_eq!(s.attributes.len(), 1);
    assert!(matches!(lookup(&s, "x"), Some(AttributeValue::I64(2))));
}

#[test]
fn start_span_with_unsupported_attribute_fails() {
    let t = TracerProvider::new().tracer(None, None).unwrap();
    let opts = SpanOptions::with_attributes(vec![("x".to_string(), HostValue::Nil)]);
    assert_eq!(t.start_span("op".to_string(), opts).unwrap_err().kind, ErrorKind::TypeConversion);
}

#[test]
fn start_span_ignores_other_options() {
    let t = TracerProvider::new().tracer(None, None).unwrap();
    let mut opts = SpanOptions::none();
    opts.kind = Some("server".to_string());
    opts.start_timestamp = Some(HostValue::Integer(3));
    let s = t.start_span("op".to_string(), opts).unwrap();
    assert!(s.attributes.is_empty());
}

#[test]
fn span_carries_tracer_scope() {
    let t = TracerProvider::new().tracer(Some("svc".to_string()), Some("2.0".to_string())).unwrap();
    let s = t.start_span("op".to_string(), SpanOptions::none()).unwrap();
    assert_eq!(s.name, "op");
    assert_eq!(s.tracer_name, "svc");
    assert_eq!(s.tracer_version.as_deref(), Some("2.0"));
    assert!(s.attributes.is_empty());
    assert!(s.is_recording());
}
