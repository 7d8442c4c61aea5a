use otel_binding::error::ErrorKind;
use otel_binding::runtime::builder::{build_failure, Builder};
use otel_binding::runtime::handle::{flavor_symbol, Handle};
use otel_binding::runtime::{Flavor, Runtime};

#[test]
fn building_twice_gives_independent_runtimes() {
    let mut b = Builder::new_multi_thread();
    b.thread_name("worker".to_string()).unwrap();
    let first = b.build().unwrap();
    let second = b.build().unwrap();
    assert_eq!(first.flavor(), Flavor::MultiThread);
    assert_eq!(second.flavor(), Flavor::MultiThread);
    assert_eq!(b.configured_thread_name().as_deref(), Some("worker"));
    assert!(!b.borrowed());
}

#[test]
fn mutation_while_borrowed_conflicts() {
    let mut b = Builder::new_current_thread();
    b.try_borrow().unwrap();
    let e = b.thread_name("worker".to_string()).unwrap_err();
    assert_eq!(e.kind, ErrorKind::BorrowConflict);
    assert_eq!(e.message, "Runtime is already borrowed");
    assert_eq!(b.max_blocking_threads(4).unwrap_err().kind, ErrorKind::BorrowConflict);
    assert_eq!(b.try_borrow().unwrap_err().kind, ErrorKind::BorrowConflict);
    assert!(matches!(b.build(), Err(e) if e.kind == ErrorKind::BorrowConflict));
    assert_eq!(b.configured_thread_name(), None);
    b.release();
    assert!(b.thread_name("worker".to_string()).is_ok());
    assert_eq!(b.configured_thread_name().as_deref(), Some("worker"));
}

#[test]
fn max_blocking_threads_is_recorded() {
    let mut b = Builder::new_multi_thread();
    b.max_blocking_threads(8).unwrap();
    assert_eq!(b.configured_max_blocking_threads(), Some(8));
    assert_eq!(b.max_blocking_threads(0).unwrap_err().kind, ErrorKind::InvalidArgument);
    assert_eq!(b.configured_max_blocking_threads(), Some(8));
    assert!(b.build().is_ok());
}

#[test]
fn no_runtime_outside_enter() {
    let e = Handle::current().unwrap_err();
    assert_eq!(e.kind, ErrorKind::NoActiveRuntime);
    assert!(!e.message.is_empty());
}

#[test]
fn multi_thread_flavor_inside_enter() {
    let rt = Runtime::new().unwrap();
    assert_eq!(rt.flavor(), Flavor::MultiThread);
    {
        let _guard = rt.enter();
        let h = Handle::current().unwrap();
        assert_eq!(h.runtime_flavor().unwrap(), "multi_thread");
    }
    assert_eq!(Handle::current().unwrap_err().kind, ErrorKind::NoActiveRuntime);
}

#[test]
fn current_thread_flavor_inside_enter() {
    let rt = Builder::new_current_thread().build().unwrap();
    assert_eq!(rt.flavor(), Flavor::CurrentThread);
    let _guard = rt.enter();
    assert_eq!(Handle::current().unwrap().runtime_flavor().unwrap(), "current_thread");
}

#[test]
fn flavor_symbols() {
    assert_eq!(flavor_symbol(Some(Flavor::CurrentThread)).unwrap(), "current_thread");
    assert_eq!(flavor_symbol(Some(Flavor::MultiThread)).unwrap(), "multi_thread");
    assert_eq!(flavor_symbol(None).unwrap_err().kind, ErrorKind::UnknownFlavor);
}

#[test]
fn build_failure_message_names_the_cause() {
    let e = build_failure("no threads".to_string());
    assert_eq!(e.kind, ErrorKind::RuntimeBuildFailure);
    assert_eq!(e.message, "Failed to build runtime: no threads");
}
