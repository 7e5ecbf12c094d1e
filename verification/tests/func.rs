use rsroutine::Func;
use std::sync::{
    atomic::{AtomicUsize, Ordering},
    Arc,
};

#[test]
fn func_call_once_runs_and_consumes_inner_function() {
    let calls = Arc::new(AtomicUsize::new(0));
    let calls_for_func = Arc::clone(&calls);
    let mut func = Func::new(Box::new(move || {
        calls_for_func.fetch_add(1, Ordering::SeqCst);
    }));

    func.call_once();

    assert_eq!(calls.load(Ordering::SeqCst), 1);
    assert!(!func.is_pending());
}

#[test]
fn new_func_is_pending_and_not_yet_called() {
    let calls = Arc::new(AtomicUsize::new(0));
    let calls_for_func = Arc::clone(&calls);
    let func = Func::new(move || {
        calls_for_func.fetch_add(1, Ordering::SeqCst);
    });
    assert!(func.is_pending());
    assert_eq!(calls.load(Ordering::SeqCst), 0);
}
