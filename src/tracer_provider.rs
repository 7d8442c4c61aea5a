use vstd::prelude::*;

use crate::attribute::HostValue;
use crate::otel_native::versioned_tracer;
use crate::error::{BindingError, ErrorKind};
use crate::registry::{Entry, Registry};
use crate::tracer::{copy_version, Tracer};

verus! {

/// A handle on the process-wide tracer provider. It holds no provider of its own:
/// each call reads the one installed now.
///
/// After `shutdown` the handle still hands out tracers, from the provider that
/// shutdown installed in place of the old one, which records nothing. A second
/// `shutdown` installs another provider of that kind.
#[derive(Debug)]
pub struct TracerProvider {}

/// The name that a tracer gets when none is given: the empty name.
pub open spec fn tracer_name_of(name: Option<String>) -> Seq<char> {
    match name {
        Some(n) => n@,
        None => Seq::empty(),
    }
}

impl TracerProvider {
    pub fn new() -> TracerProvider {
        TracerProvider {}
    }

    /// A tracer scoped to a name and an optional version. A version without a name is refused.
    pub fn tracer(&self, name: Option<String>, version: Option<String>) -> (r: Result<Tracer, BindingError>)
        ensures
            r.is_err() == (name is None && version is Some),
            r matches Err(e) ==> e.kind == ErrorKind::InvalidArgument,
            r matches Ok(t) ==> t.scope_name()@ == tracer_name_of(name) && t.scope_version() == version,
    {
        match name {
            Some(n) => {
                let global = opentelemetry::global::tracer_provider();
                let native = versioned_tracer(&global, n.clone(), copy_version(&version));
                Ok(Tracer::new(n, version, native))
            },
            None => {
                if version.is_some() {
                    Err(BindingError::with_text(ErrorKind::InvalidArgument, "a tracer version requires a tracer name"))
                } else {
                    let global = opentelemetry::global::tracer_provider();
                    let native = versioned_tracer(&global, String::new(), None);
                    Ok(Tracer::new(String::new(), None, native))
                }
            },
        }
    }

    /// Flushes and tears down the global export pipeline. The timeout option is accepted
    /// and not enforced.
    pub fn shutdown(&self, timeout: Option<HostValue>) -> (r: Result<(), BindingError>)
        ensures
            r.is_ok(),
    {
        opentelemetry::global::shutdown_tracer_provider();
        Ok(())
    }
}

/// The publications of the tracer provider class.
pub open spec fn provider_entries() -> Seq<Entry> {
    seq![
        Entry::Class { namespace: "OpenTelemetry::SDK::Trace", name: "TracerProvider" },
        Entry::SingletonMethod { class: "OpenTelemetry::SDK::Trace::TracerProvider", name: "new", arity: 0 },
        Entry::Method { class: "OpenTelemetry::SDK::Trace::TracerProvider", name: "tracer", arity: -1i32 },
        Entry::Method { class: "OpenTelemetry::SDK::Trace::TracerProvider", name: "shutdown", arity: -1i32 },
    ]
}

/// Publishes the tracer provider class and its methods.
pub fn init(reg: &mut Registry) -> (r: Result<(), BindingError>)
    ensures
        r.is_ok(),
        final(reg).entries@ == old(reg).entries@ + provider_entries(),
{
    reg.add(Entry::Class { namespace: "OpenTelemetry::SDK::Trace", name: "TracerProvider" });
    reg.add(Entry::SingletonMethod { class: "OpenTelemetry::SDK::Trace::TracerProvider", name: "new", arity: 0 });
    reg.add(Entry::Method { class: "OpenTelemetry::SDK::Trace::TracerProvider", name: "tracer", arity: -1i32 });
    reg.add(Entry::Method { class: "OpenTelemetry::SDK::Trace::TracerProvider", name: "shutdown", arity: -1i32 });
    assert(final(reg).entries@ =~= old(reg).entries@ + provider_entries());
    Ok(())
}

} // verus!
