use vstd::prelude::*;

pub mod builder;
pub mod enter_guard;
pub mod handle;

use crate::error::{BindingError, ErrorKind};
use crate::registry::{Entry, Registry};
use crate::runtime::builder::{build_failure_message, builder_entries, Builder};
use crate::runtime::enter_guard::{guard_entries, EnterGuard};
use crate::runtime::handle::handle_entries;

verus! {

/// The scheduling strategy of a runtime.
#[derive(Clone, Copy, Debug, PartialEq, Eq, Structural)]
pub enum Flavor {
    /// One cooperative scheduler on the current thread.
    CurrentThread,
    /// A pool of work-stealing worker threads.
    MultiThread,
}

/// A constructed thread pool and the flavor it was built with.
#[derive(Debug)]
pub struct Runtime {
    inner: tokio::runtime::Runtime,
    flavor: Flavor,
}

impl Runtime {
    /// The flavor of the builder that made this runtime.
    pub closed spec fn spec_flavor(&self) -> Flavor {
        self.flavor
    }

    pub(crate) fn from_parts(inner: tokio::runtime::Runtime, flavor: Flavor) -> (r: Runtime)
        ensures
            r.spec_flavor() == flavor,
    {
        Runtime { inner, flavor }
    }

    pub fn flavor(&self) -> (r: Flavor)
        ensures
            r == self.spec_flavor(),
    {
        self.flavor
    }

    /// A multi-threaded runtime with the default configuration.
    pub fn new() -> (r: Result<Runtime, BindingError>)
        ensures
            r matches Ok(rt) ==> rt.spec_flavor() == Flavor::MultiThread,
            r matches Err(e) ==> e.kind == ErrorKind::RuntimeBuildFailure
                && exists|cause: Seq<char>| e.message@ == build_failure_message(cause),
    {
        let mut b = Builder::new_multi_thread();
        b.build()
    }

    /// Makes this runtime the current one on the calling thread until the guard is dropped.
    /// Work runs on the calling thread while the guard lives, never on the pool's workers.
    pub fn enter(&self) -> EnterGuard<'_> {
        EnterGuard::from_native(self.inner.enter())
    }
}

/// Full path of the runtime class.
pub fn class() -> (r: &'static str)
    ensures
        r@ == "Tokio::Runtime"@,
{
    "Tokio::Runtime"
}

/// The publications of the runtime class itself.
pub open spec fn runtime_class_entries() -> Seq<Entry> {
    seq![
        Entry::SingletonMethod { class: "Tokio::Runtime", name: "new", arity: 0 },
        Entry::Method { class: "Tokio::Runtime", name: "enter", arity: 0 },
    ]
}

/// Everything that the runtime bindings publish, in order.
pub open spec fn runtime_entries() -> Seq<Entry> {
    seq![Entry::Class { namespace: "Tokio", name: "Runtime" }] + builder_entries() + runtime_class_entries()
        + handle_entries() + guard_entries()
}

/// Publishes the runtime class, its builder, handle and enter guard.
pub fn init(reg: &mut Registry) -> (r: Result<(), BindingError>)
    ensures
        r.is_ok(),
        final(reg).entries@ == old(reg).entries@ + runtime_entries(),
{
    reg.add(Entry::Class { namespace: "Tokio", name: "Runtime" });
    builder::init(reg)?;
    reg.add(Entry::SingletonMethod { class: "Tokio::Runtime", name: "new", arity: 0 });
    reg.add(Entry::Method { class: "Tokio::Runtime", name: "enter", arity: 0 });
    handle::init(reg)?;
    enter_guard::init(reg)?;
    assert(final(reg).entries@ =~= old(reg).entries@ + runtime_entries());
    Ok(())
}

} // verus!
