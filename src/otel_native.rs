use vstd::prelude::*;

use opentelemetry::global::BoxedTracer;
use opentelemetry::global::GlobalTracerProvider;

verus! {

/// opentelemetry's handle on the global tracer provider, opaque here.
#[verifier::external_type_specification]
#[verifier::external_body]
pub struct ExGlobalTracerProvider(GlobalTracerProvider);

/// A tracer of the global provider, opaque here.
#[verifier::external_type_specification]
#[verifier::external_body]
pub struct ExBoxedTracer(BoxedTracer);

/// Relies on opentelemetry's `global::tracer_provider`: a handle on the process-wide provider
/// as it is installed now. It panics only if the provider's lock was poisoned.
pub assume_specification[ opentelemetry::global::tracer_provider ]() -> GlobalTracerProvider;

/// Relies on opentelemetry's `global::shutdown_tracer_provider`: replaces the installed provider
/// with one that records nothing, and drops the global reference to the old one. When no
/// other handle on the old provider is left, its span processors are shut down, which
/// flushes them; its tracers hold it only weakly and then record nothing. Calling it again
/// replaces the no-op provider with another of the same kind.
pub assume_specification[ opentelemetry::global::shutdown_tracer_provider ]();

/// Relies on opentelemetry's `TracerProvider::versioned_tracer` for the global provider:
/// a tracer scoped to the name and version. The provider keeps the version string for
/// the life of the process.
#[verifier::external_body]
pub(crate) fn versioned_tracer(p: &GlobalTracerProvider, name: String, version: Option<String>) -> BoxedTracer {
    let version: Option<&'static str> = match version {
        Some(v) => Some(Box::leak(v.into_boxed_str())),
        None => None,
    };
    opentelemetry::trace::TracerProvider::versioned_tracer(p, name, version, None)
}

} // verus!
