use vstd::prelude::*;

use opentelemetry::global::BoxedTracer;

use crate::attribute::{all_scalar, converted_pairs, HostValue};
use crate::error::{BindingError, ErrorKind};
use crate::registry::{Entry, Registry};
use crate::span::{apply_pairs, Span};

verus! {

/// The options that `start_span` recognises. Only `attributes` takes effect;
/// the others are accepted and ignored.
#[derive(Debug)]
pub struct SpanOptions {
    pub with_parent: Option<HostValue>,
    pub attributes: Option<Vec<(String, HostValue)>>,
    pub links: Option<Vec<HostValue>>,
    pub start_timestamp: Option<HostValue>,
    pub kind: Option<String>,
}

impl SpanOptions {
    /// No option given.
    pub fn none() -> (r: SpanOptions)
        ensures
            r.with_parent is None,
            r.attributes is None,
            r.links is None,
            r.start_timestamp is None,
            r.kind is None,
    {
        SpanOptions { with_parent: None, attributes: None, links: None, start_timestamp: None, kind: None }
    }

    /// Only initial attributes given.
    pub fn with_attributes(attributes: Vec<(String, HostValue)>) -> (r: SpanOptions)
        ensures
            r.with_parent is None,
            r.attributes == Some(attributes),
            r.links is None,
            r.start_timestamp is None,
            r.kind is None,
    {
        SpanOptions { with_parent: None, attributes: Some(attributes), links: None, start_timestamp: None, kind: None }
    }
}

/// The initial attributes that a set of options asks for are all supported.
pub open spec fn options_convertible(options: SpanOptions) -> bool {
    match options.attributes {
        Some(a) => all_scalar(a@),
        None => true,
    }
}

/// A copy of an optional string.
pub fn copy_version(v: &Option<String>) -> (r: Option<String>)
    ensures
        r == *v,
{
    match v {
        Some(s) => Some(s.clone()),
        None => None,
    }
}

/// A named, versioned span factory, beside the OpenTelemetry tracer of that name and version.
/// Only the tracer provider makes one, so the scope and the native tracer agree.
#[derive(Debug)]
pub struct Tracer {
    name: String,
    version: Option<String>,
    native: BoxedTracer,
}

impl Tracer {
    /// The name the tracer is scoped to.
    pub closed spec fn scope_name(&self) -> String {
        self.name
    }

    /// The version the tracer is scoped to, if any.
    pub closed spec fn scope_version(&self) -> Option<String> {
        self.version
    }

    pub(crate) fn new(name: String, version: Option<String>, native: BoxedTracer) -> (r: Tracer)
        ensures
            r.scope_name() == name,
            r.scope_version() == version,
    {
        Tracer { name, version, native }
    }

    pub fn name(&self) -> (r: &String)
        ensures
            *r == self.scope_name(),
    {
        &self.name
    }

    pub fn version(&self) -> (r: &Option<String>)
        ensures
            *r == self.scope_version(),
    {
        &self.version
    }

    /// The OpenTelemetry tracer of this name and version.
    pub fn native(&self) -> &BoxedTracer {
        &self.native
    }

    /// Starts a span. Initial attributes are converted before the span exists:
    /// if one is unsupported no span is returned.
    pub fn start_span(&self, name: String, options: SpanOptions) -> (r: Result<Span, BindingError>)
        ensures
            r.is_ok() == options_convertible(options),
            r matches Err(e) ==> e.kind == ErrorKind::TypeConversion,
            r matches Ok(s) ==> {
                &&& s.wf()
                &&& s.name == name
                &&& s.tracer_name == self.scope_name()
                &&& s.tracer_version == self.scope_version()
                &&& !s.ended
                &&& s.attrs() == match options.attributes {
                    Some(a) => apply_pairs(Map::empty(), converted_pairs(a@)),
                    None => Map::empty(),
                }
            },
    {
        let mut span = Span::new(name, self.name.clone(), copy_version(&self.version));
        match &options.attributes {
            Some(attrs) => {
                let _ = span.add_attributes(attrs)?;
            },
            None => {},
        }
        Ok(span)
    }
}

/// The publications of the tracer class.
pub open spec fn tracer_entries() -> Seq<Entry> {
    seq![
        Entry::Class { namespace: "OpenTelemetry::SDK::Trace", name: "Tracer" },
        Entry::Method { class: "OpenTelemetry::SDK::Trace::Tracer", name: "start_span", arity: -1i32 },
    ]
}

/// Publishes the tracer class and its methods.
pub fn init(reg: &mut Registry) -> (r: Result<(), BindingError>)
    ensures
        r.is_ok(),
        final(reg).entries@ == old(reg).entries@ + tracer_entries(),
{
    reg.add(Entry::Class { namespace: "OpenTelemetry::SDK::Trace", name: "Tracer" });
    reg.add(Entry::Method { class: "OpenTelemetry::SDK::Trace::Tracer", name: "start_span", arity: -1i32 });
    assert(final(reg).entries@ =~= old(reg).entries@ + tracer_entries());
    Ok(())
}

} // verus!
