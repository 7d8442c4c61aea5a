use vstd::prelude::*;

use crate::runtime::Flavor;
use tokio::runtime::Builder as NativeBuilder;
use tokio::runtime::EnterGuard as NativeEnterGuard;
use tokio::runtime::Handle as NativeHandle;
use tokio::runtime::Runtime as NativeRuntime;

verus! {

/// tokio's runtime configuration, opaque here.
#[verifier::external_type_specification]
#[verifier::external_body]
pub struct ExTokioBuilder(NativeBuilder);

/// A tokio runtime, opaque here.
#[verifier::external_type_specification]
#[verifier::external_body]
pub struct ExTokioRuntime(NativeRuntime);

/// A tokio runtime handle, opaque here.
#[verifier::external_type_specification]
#[verifier::external_body]
pub struct ExTokioHandle(NativeHandle);

/// tokio's guard of an entered runtime context, opaque here.
#[verifier::external_type_specification]
#[verifier::external_body]
pub struct ExTokioEnterGuard<'a>(NativeEnterGuard<'a>);

/// Relies on tokio's `Builder::new_multi_thread`: a builder for the work-stealing scheduler.
pub assume_specification[ NativeBuilder::new_multi_thread ]() -> NativeBuilder;

/// Relies on tokio's `Builder::new_current_thread`: a builder for the single-thread scheduler.
pub assume_specification[ NativeBuilder::new_current_thread ]() -> NativeBuilder;

/// Relies on tokio's `Runtime::enter`: makes the runtime current until the guard drops.
/// It panics only when the thread's local storage is being torn down.
pub assume_specification<'a>[ NativeRuntime::enter ](rt: &'a NativeRuntime) -> NativeEnterGuard<'a>;

/// Relies on tokio's `Builder::max_blocking_threads`, which panics on zero.
#[verifier::external_body]
pub(crate) fn set_max_blocking_threads(b: &mut NativeBuilder, n: usize)
    requires
        n > 0,
{
    b.max_blocking_threads(n);
}

/// Relies on tokio's `Builder::thread_name`: names the threads of the pool.
#[verifier::external_body]
pub(crate) fn set_thread_name(b: &mut NativeBuilder, name: String) {
    b.thread_name(name);
}

/// Relies on tokio's `Builder::enable_all`: turns on the I/O and time drivers.
#[verifier::external_body]
pub(crate) fn enable_all(b: &mut NativeBuilder) {
    b.enable_all();
}

/// Relies on tokio's `Builder::build`; an I/O error is handed back as its message.
#[verifier::external_body]
pub(crate) fn build_runtime(b: &mut NativeBuilder) -> (r: Result<NativeRuntime, String>) {
    match b.build() {
        Ok(rt) => Ok(rt),
        Err(e) => Err(e.to_string()),
    }
}

/// Relies on tokio's `Handle::try_current`: the runtime of the calling thread's context,
/// or the reason there is none.
#[verifier::external_body]
pub(crate) fn try_current_handle() -> (r: Result<NativeHandle, String>) {
    match NativeHandle::try_current() {
        Ok(h) => Ok(h),
        Err(e) => Err(e.to_string()),
    }
}

/// The scheduling flavor of the runtime that a tokio handle refers to.
pub uninterp spec fn flavor_of(h: NativeHandle) -> Option<Flavor>;

/// Relies on tokio's `Handle::runtime_flavor`, which depends on the handle alone;
/// a flavor this library does not know is `None`.
#[verifier::external_body]
pub(crate) fn handle_flavor(h: &NativeHandle) -> (r: Option<Flavor>)
    ensures
        r == flavor_of(*h),
{
    match h.runtime_flavor() {
        tokio::runtime::RuntimeFlavor::CurrentThread => Some(Flavor::CurrentThread),
        tokio::runtime::RuntimeFlavor::MultiThread => Some(Flavor::MultiThread),
        _ => None,
    }
}

} // verus!
