use vstd::prelude::*;

use crate::error::{BindingError, ErrorKind};
use crate::tokio_native::{flavor_of, handle_flavor, try_current_handle};
use crate::registry::{Entry, Registry};
use crate::runtime::Flavor;

verus! {

/// A reference to the runtime that is current on the calling thread.
#[derive(Debug)]
pub struct Handle {
    inner: tokio::runtime::Handle,
}

/// The symbol that names a flavor; an unknown flavor is an error.
pub fn flavor_symbol(flavor: Option<Flavor>) -> (r: Result<&'static str, BindingError>)
    ensures
        flavor == Some(Flavor::CurrentThread) ==> (r matches Ok(s) && s@ == "current_thread"@),
        flavor == Some(Flavor::MultiThread) ==> (r matches Ok(s) && s@ == "multi_thread"@),
        flavor is None ==> (r matches Err(e) && e.kind == ErrorKind::UnknownFlavor),
{
    match flavor {
        Some(Flavor::CurrentThread) => Ok("current_thread"),
        Some(Flavor::MultiThread) => Ok("multi_thread"),
        None => Err(BindingError::with_text(ErrorKind::UnknownFlavor, "Unknown runtime flavor")),
    }
}

impl Handle {
    /// The flavor of the runtime this handle refers to, as tokio reports it.
    pub closed spec fn native_flavor(&self) -> Option<Flavor> {
        flavor_of(self.inner)
    }

    /// The runtime current on this thread; fails with `NoActiveRuntime` outside any entered runtime.
    pub fn current() -> (r: Result<Handle, BindingError>)
        ensures
            r matches Err(e) ==> e.kind == ErrorKind::NoActiveRuntime,
    {
        match try_current_handle() {
            Ok(inner) => Ok(Handle { inner }),
            Err(cause) => Err(BindingError::new(ErrorKind::NoActiveRuntime, cause)),
        }
    }

    /// `current_thread` or `multi_thread`; any other flavor is an `UnknownFlavor` error.
    pub fn runtime_flavor(&self) -> (r: Result<&'static str, BindingError>)
        ensures
            self.native_flavor() == Some(Flavor::CurrentThread) ==> (r matches Ok(s) && s@ == "current_thread"@),
            self.native_flavor() == Some(Flavor::MultiThread) ==> (r matches Ok(s) && s@ == "multi_thread"@),
            self.native_flavor() is None ==> (r matches Err(e) && e.kind == ErrorKind::UnknownFlavor),
    {
        flavor_symbol(handle_flavor(&self.inner))
    }
}

/// The publications of the handle class.
pub open spec fn handle_entries() -> Seq<Entry> {
    seq![
        Entry::Class { namespace: "Tokio::Runtime", name: "Handle" },
        Entry::SingletonMethod { class: "Tokio::Runtime::Handle", name: "current", arity: 0 },
        Entry::Method { class: "Tokio::Runtime::Handle", name: "runtime_flavor", arity: 0 },
    ]
}

/// Publishes the handle class and its methods.
pub fn init(reg: &mut Registry) -> (r: Result<(), BindingError>)
    ensures
        r.is_ok(),
        final(reg).entries@ == old(reg).entries@ + handle_entries(),
{
    reg.add(Entry::Class { namespace: "Tokio::Runtime", name: "Handle" });
    reg.add(Entry::SingletonMethod { class: "Tokio::Runtime::Handle", name: "current", arity: 0 });
    reg.add(Entry::Method { class: "Tokio::Runtime::Handle", name: "runtime_flavor", arity: 0 });
    assert(final(reg).entries@ =~= old(reg).entries@ + handle_entries());
    Ok(())
}

} // verus!
