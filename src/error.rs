use vstd::prelude::*;

use crate::registry::{Entry, Registry};

verus! {

/// The kinds of failure that the binding reports to host code.
#[derive(Clone, Copy, Debug, PartialEq, Eq, Structural)]
pub enum ErrorKind {
    /// A caller-supplied argument combination is not allowed.
    InvalidArgument,
    /// A host value has no matching attribute variant.
    TypeConversion,
    /// Exclusive access to a builder's configuration is already held.
    BorrowConflict,
    /// The thread pool could not be constructed.
    RuntimeBuildFailure,
    /// No runtime context is active on the calling thread.
    NoActiveRuntime,
    /// A runtime reported a scheduling flavor that the binding does not know.
    UnknownFlavor,
    /// A recognised option whose behaviour is not provided.
    Unimplemented,
}

/// A failure surfaced to the host: its kind and a descriptive message.
#[derive(Debug)]
pub struct BindingError {
    pub kind: ErrorKind,
    pub message: String,
}

impl BindingError {
    pub fn new(kind: ErrorKind, message: String) -> (r: BindingError)
        ensures
            r.kind == kind,
            r.message == message,
    {
        BindingError { kind, message }
    }

    /// Builds an error whose message is the given text.
    pub fn with_text(kind: ErrorKind, text: &str) -> (r: BindingError)
        ensures
            r.kind == kind,
            r.message@ == text@,
    {
        BindingError { kind, message: text.to_owned() }
    }
}

/// The runtime bindings' top-level module and their base error class.
pub open spec fn error_entries() -> Seq<Entry> {
    seq![Entry::Module { namespace: "", name: "Tokio" }, Entry::ErrorClass { namespace: "Tokio", name: "Error" }]
}

/// Publishes the base error class of the runtime bindings, from which every
/// error they raise derives.
pub fn init(reg: &mut Registry) -> (r: Result<(), BindingError>)
    ensures
        r.is_ok(),
        final(reg).entries@ == old(reg).entries@ + error_entries(),
{
    reg.add(Entry::Module { namespace: "", name: "Tokio" });
    reg.add(Entry::ErrorClass { namespace: "Tokio", name: "Error" });
    assert(final(reg).entries@ =~= old(reg).entries@ + error_entries());
    Ok(())
}

} // verus!
