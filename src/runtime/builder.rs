use vstd::prelude::*;
use vstd::string::StringExecFns;

use crate::error::{BindingError, ErrorKind};
use crate::tokio_native::{build_runtime, enable_all, set_max_blocking_threads, set_thread_name};
use crate::registry::{Entry, Registry};
use crate::runtime::{Flavor, Runtime};

verus! {

/// The message of a refused mutation while exclusive access is held.
pub open spec fn conflict_message() -> Seq<char> {
    "Runtime is already borrowed"@
}

/// The message of a failed build, given the cause that tokio reported.
pub open spec fn build_failure_message(cause: Seq<char>) -> Seq<char> {
    "Failed to build runtime: "@ + cause
}

/// The error for a pool that could not be built, carrying the cause.
pub fn build_failure(cause: String) -> (e: BindingError)
    ensures
        e.kind == ErrorKind::RuntimeBuildFailure,
        e.message@ == build_failure_message(cause@),
{
    let mut message = "Failed to build runtime: ".to_owned();
    message.append(cause.as_str());
    BindingError::new(ErrorKind::RuntimeBuildFailure, message)
}

/// Configuration of a runtime before it is built.
///
/// Mutation needs exclusive access: while access is held (`try_borrow` until
/// `release`) every other mutation fails at once with `BorrowConflict`
/// instead of waiting. `build` leaves the configuration as it was, so a second
/// `build` makes a fresh, independent runtime from the same configuration.
#[derive(Debug)]
pub struct Builder {
    inner: tokio::runtime::Builder,
    flavor: Flavor,
    thread_name: Option<String>,
    max_blocking_threads: Option<usize>,
    borrowed: bool,
}

impl Builder {
    pub closed spec fn spec_flavor(&self) -> Flavor {
        self.flavor
    }

    /// The thread name that was set, if any.
    pub closed spec fn spec_thread_name(&self) -> Option<String> {
        self.thread_name
    }

    /// The limit on blocking threads that was set, if any.
    pub closed spec fn spec_max_blocking_threads(&self) -> Option<usize> {
        self.max_blocking_threads
    }

    /// Whether exclusive access to the configuration is currently held.
    pub closed spec fn is_borrowed(&self) -> bool {
        self.borrowed
    }

    /// The configuration the caller can see is the same in both builders.
    pub open spec fn same_config(&self, other: &Builder) -> bool {
        &&& self.spec_flavor() == other.spec_flavor()
        &&& self.spec_thread_name() == other.spec_thread_name()
        &&& self.spec_max_blocking_threads() == other.spec_max_blocking_threads()
    }

    /// A builder for a pool of work-stealing worker threads.
    pub fn new_multi_thread() -> (r: Builder)
        ensures
            r.spec_flavor() == Flavor::MultiThread,
            r.spec_thread_name() is None,
            r.spec_max_blocking_threads() is None,
            !r.is_borrowed(),
    {
        let inner = tokio::runtime::Builder::new_multi_thread();
        Builder { inner, flavor: Flavor::MultiThread, thread_name: None, max_blocking_threads: None, borrowed: false }
    }

    /// A builder for a single cooperative scheduler on the current thread.
    pub fn new_current_thread() -> (r: Builder)
        ensures
            r.spec_flavor() == Flavor::CurrentThread,
            r.spec_thread_name() is None,
            r.spec_max_blocking_threads() is None,
            !r.is_borrowed(),
    {
        let inner = tokio::runtime::Builder::new_current_thread();
        Builder { inner, flavor: Flavor::CurrentThread, thread_name: None, max_blocking_threads: None, borrowed: false }
    }

    pub fn flavor(&self) -> (r: Flavor)
        ensures
            r == self.spec_flavor(),
    {
        self.flavor
    }

    pub fn configured_thread_name(&self) -> (r: Option<String>)
        ensures
            r == self.spec_thread_name(),
    {
        match &self.thread_name {
            Some(n) => Some(n.clone()),
            None => None,
        }
    }

    pub fn configured_max_blocking_threads(&self) -> (r: Option<usize>)
        ensures
            r == self.spec_max_blocking_threads(),
    {
        self.max_blocking_threads
    }

    pub fn borrowed(&self) -> (r: bool)
        ensures
            r == self.is_borrowed(),
    {
        self.borrowed
    }

    /// Takes exclusive access to the configuration; fails at once if it is already held.
    pub fn try_borrow(&mut self) -> (r: Result<(), BindingError>)
        ensures
            r.is_ok() == !old(self).is_borrowed(),
            r matches Err(e) ==> e.kind == ErrorKind::BorrowConflict && e.message@ == conflict_message(),
            final(self).is_borrowed(),
            final(self).same_config(old(self)),
    {
        if self.borrowed {
            return Err(BindingError::with_text(ErrorKind::BorrowConflict, "Runtime is already borrowed"));
        }
        self.borrowed = true;
        Ok(())
    }

    /// Gives exclusive access back.
    pub fn release(&mut self)
        ensures
            !final(self).is_borrowed(),
            final(self).same_config(old(self)),
    {
        self.borrowed = false;
    }

    /// Limits the number of blocking threads. Zero is refused, and so is a call while
    /// access is held; both leave the configuration unchanged.
    pub fn max_blocking_threads(&mut self, n: usize) -> (r: Result<(), BindingError>)
        ensures
            r.is_ok() == (!old(self).is_borrowed() && n > 0),
            r matches Err(e) ==> e.kind == (if old(self).is_borrowed() {
                ErrorKind::BorrowConflict
            } else {
                ErrorKind::InvalidArgument
            }),
            old(self).is_borrowed() ==> (r matches Err(e) && e.message@ == conflict_message()),
            final(self).is_borrowed() == old(self).is_borrowed(),
            final(self).spec_flavor() == old(self).spec_flavor(),
            final(self).spec_thread_name() == old(self).spec_thread_name(),
            final(self).spec_max_blocking_threads() == if r.is_ok() {
                Some(n)
            } else {
                old(self).spec_max_blocking_threads()
            },
    {
        self.try_borrow()?;
        if n == 0 {
            self.release();
            return Err(BindingError::with_text(ErrorKind::InvalidArgument, "max blocking threads cannot be zero"));
        }
        set_max_blocking_threads(&mut self.inner, n);
        self.max_blocking_threads = Some(n);
        self.release();
        Ok(())
    }

    /// Names the threads that the runtime spawns. Fails while access is held,
    /// leaving the configuration unchanged.
    pub fn thread_name(&mut self, name: String) -> (r: Result<(), BindingError>)
        ensures
            r.is_ok() == !old(self).is_borrowed(),
            r matches Err(e) ==> e.kind == ErrorKind::BorrowConflict && e.message@ == conflict_message(),
            final(self).is_borrowed() == old(self).is_borrowed(),
            final(self).spec_flavor() == old(self).spec_flavor(),
            final(self).spec_max_blocking_threads() == old(self).spec_max_blocking_threads(),
            final(self).spec_thread_name() == if r.is_ok() {
                Some(name)
            } else {
                old(self).spec_thread_name()
            },
    {
        self.try_borrow()?;
        set_thread_name(&mut self.inner, name.clone());
        self.thread_name = Some(name);
        self.release();
        Ok(())
    }

    /// Builds a runtime with all drivers enabled. Fails with `BorrowConflict` while
    /// access is held, and with `RuntimeBuildFailure` when the pool cannot be made.
    /// The configuration stays as it was.
    pub fn build(&mut self) -> (r: Result<Runtime, BindingError>)
        ensures
            r matches Ok(rt) ==> rt.spec_flavor() == old(self).spec_flavor(),
            old(self).is_borrowed() ==> (r matches Err(e) && e.kind == ErrorKind::BorrowConflict
                && e.message@ == conflict_message()),
            !old(self).is_borrowed() ==> (r matches Err(e) ==> e.kind == ErrorKind::RuntimeBuildFailure
                && exists|cause: Seq<char>| e.message@ == build_failure_message(cause)),
            final(self).is_borrowed() == old(self).is_borrowed(),
            final(self).same_config(old(self)),
    {
        self.try_borrow()?;
        enable_all(&mut self.inner);
        let built = build_runtime(&mut self.inner);
        self.release();
        match built {
            Ok(rt) => Ok(Runtime::from_parts(rt, self.flavor)),
            Err(cause) => Err(build_failure(cause)),
        }
    }
}

/// The publications of the builder class.
pub open spec fn builder_entries() -> Seq<Entry> {
    seq![
        Entry::Class { namespace: "Tokio::Runtime", name: "Builder" },
        Entry::SingletonMethod { class: "Tokio::Runtime::Builder", name: "new_multi_thread", arity: 0 },
        Entry::SingletonMethod { class: "Tokio::Runtime::Builder", name: "new_current_thread", arity: 0 },
        Entry::Method { class: "Tokio::Runtime::Builder", name: "thread_name", arity: 1 },
        Entry::Method { class: "Tokio::Runtime::Builder", name: "max_blocking_threads", arity: 1 },
    ]
}

/// Publishes the builder class and its methods.
pub fn init(reg: &mut Registry) -> (r: Result<(), BindingError>)
    ensures
        r.is_ok(),
        final(reg).entries@ == old(reg).entries@ + builder_entries(),
{
    reg.add(Entry::Class { namespace: "Tokio::Runtime", name: "Builder" });
    reg.add(Entry::SingletonMethod { class: "Tokio::Runtime::Builder", name: "new_multi_thread", arity: 0 });
    reg.add(Entry::SingletonMethod { class: "Tokio::Runtime::Builder", name: "new_current_thread", arity: 0 });
    reg.add(Entry::Method { class: "Tokio::Runtime::Builder", name: "thread_name", arity: 1 });
    reg.add(Entry::Method { class: "Tokio::Runtime::Builder", name: "max_blocking_threads", arity: 1 });
    assert(final(reg).entries@ =~= old(reg).entries@ + builder_entries());
    Ok(())
}

} // verus!
