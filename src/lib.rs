use vstd::prelude::*;

pub mod attribute;
pub mod error;
pub mod exporters;
pub mod otel_native;
pub mod registry;
pub mod runtime;
pub mod span;
pub mod tracer;
pub mod tokio_native;
pub mod tracer_provider;

use crate::error::{error_entries, BindingError};
use crate::registry::{Entry, Registry};
use crate::runtime::runtime_entries;
use crate::span::span_entries;
use crate::tracer::tracer_entries;
use crate::tracer_provider::provider_entries;

verus! {

/// The tracing modules and the module function that configures export.
pub open spec fn module_entries() -> Seq<Entry> {
    seq![
        Entry::Module { namespace: "", name: "OpenTelemetry" },
        Entry::Module { namespace: "OpenTelemetry", name: "SDK" },
        Entry::Module { namespace: "OpenTelemetry::SDK", name: "Trace" },
        Entry::ModuleFunction { module: "OpenTelemetry::SDK", name: "configure", arity: 0 },
    ]
}

/// Everything that the extension publishes to host code, in order.
pub open spec fn all_entries() -> Seq<Entry> {
    module_entries() + provider_entries() + tracer_entries() + span_entries() + error_entries()
        + runtime_entries()
}

/// Publishes the tracing classes and the runtime bindings.
pub fn init(reg: &mut Registry) -> (r: Result<(), BindingError>)
    ensures
        r.is_ok(),
        final(reg).entries@ == old(reg).entries@ + all_entries(),
{
    reg.add(Entry::Module { namespace: "", name: "OpenTelemetry" });
    reg.add(Entry::Module { namespace: "OpenTelemetry", name: "SDK" });
    reg.add(Entry::Module { namespace: "OpenTelemetry::SDK", name: "Trace" });
    reg.add(Entry::ModuleFunction { module: "OpenTelemetry::SDK", name: "configure", arity: 0 });
    tracer_provider::init(reg)?;
    tracer::init(reg)?;
    span::init(reg)?;
    error::init(reg)?;
    runtime::init(reg)?;
    assert(final(reg).entries@ =~= old(reg).entries@ + all_entries());
    Ok(())
}

} // verus!
