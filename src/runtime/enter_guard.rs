use vstd::prelude::*;

use crate::error::BindingError;
use crate::registry::{Entry, Registry};

verus! {

/// A scope token: while it lives, its runtime is the current one on this thread.
/// Dropping it restores the previous context, on every exit path.
#[derive(Debug)]
pub struct EnterGuard<'a> {
    inner: tokio::runtime::EnterGuard<'a>,
}

impl<'a> EnterGuard<'a> {
    pub(crate) fn from_native(inner: tokio::runtime::EnterGuard<'a>) -> EnterGuard<'a> {
        EnterGuard { inner }
    }

    pub fn new(inner: tokio::runtime::EnterGuard<'a>) -> (r: Result<EnterGuard<'a>, BindingError>)
        ensures
            r.is_ok(),
    {
        Ok(EnterGuard { inner })
    }
}

/// The publications of the enter guard class.
pub open spec fn guard_entries() -> Seq<Entry> {
    seq![Entry::Class { namespace: "Tokio::Runtime", name: "EnterGuard" }]
}

/// Publishes the enter guard class.
pub fn init(reg: &mut Registry) -> (r: Result<(), BindingError>)
    ensures
        r.is_ok(),
        final(reg).entries@ == old(reg).entries@ + guard_entries(),
{
    reg.add(Entry::Class { namespace: "Tokio::Runtime", name: "EnterGuard" });
    assert(final(reg).entries@ =~= old(reg).entries@ + guard_entries());
    Ok(())
}

} // verus!
