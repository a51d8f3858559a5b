use green_future::state::State;
use green_future::tcb::Tcb;
use std::cell::Cell;
use std::rc::Rc;

#[test]
fn simple_return() {
    // A closure that neither yields nor parks completes within one poll:
    // bootstrap, run, and the extraction reports its return value.
    let mut tcb: Tcb<_, u32, u32> = Tcb::new(|| 42u32);
    assert!(tcb.canary_ok());
    assert!(tcb.needs_start());
    tcb.start(0x1f98, 7u32);
    tcb.run_ready();
    assert_eq!(tcb.take_ret(), Some(42));
    assert!(tcb.canary_ok());
}

#[test]
fn poll_after_completion_is_harmless() {
    // Once the return value is out, a further poll finds nothing, and the
    // header is left exactly as it was.
    let mut tcb: Tcb<_, u32, u32> = Tcb::new(|| 1u32);
    tcb.start(0, 0u32);
    tcb.run_ready();
    assert_eq!(tcb.take_ret(), Some(1));
    assert_eq!(tcb.take_ret(), None);
    assert_eq!(tcb.take_ret(), None);
    assert!(matches!(tcb.state, State::Invalid));
    assert!(tcb.canary_ok());
}

#[test]
fn closure_runs_exactly_once() {
    let hits = Rc::new(Cell::new(0u32));
    let inner = Rc::clone(&hits);
    // The closure moves out of Ready on the first entry; afterwards the
    // state machine never offers it again.
    let mut tcb: Tcb<_, u32, u32> = Tcb::new(move || {
        inner.set(inner.get() + 1);
        inner.get()
    });
    tcb.start(0, 0u32);
    tcb.run_ready();
    assert!(!tcb.needs_start());
    assert_eq!(tcb.take_ret(), Some(1));
    assert_eq!(hits.get(), 1);
}

#[test]
fn waker_is_stored_on_start_and_cloned_out() {
    let mut tcb: Tcb<_, u32, u32> = Tcb::new(|| 0u32);
    tcb.start(0, 7u32);
    assert_eq!(tcb.current_waker(), 7);
    // The handle is a clone: taking it leaves the slot populated.
    assert_eq!(tcb.current_waker(), 7);
}

#[test]
fn fresh_header_awaits_start() {
    let tcb: Tcb<_, u32, u32> = Tcb::new(|| 3u32);
    assert!(tcb.needs_start());
    assert_eq!(tcb.context_ptr, 0);
    assert!(tcb.waker.is_none());
    assert!(tcb.canary_ok());
}

#[test]
fn overwritten_canary_is_detected() {
    // A stack that grows down past its region overwrites the canary word
    // first; the check must report the mismatch instead of trusting the
    // header.
    let mut tcb: Tcb<_, u32, u32> = Tcb::new(|| 3u32);
    tcb.canary = 0;
    assert!(!tcb.canary_ok());
    tcb.canary = 0xcafebabe_deadbeaf;
    assert!(tcb.canary_ok());
}
