use green_future::state::State;

type S = State<fn() -> u32, u32>;

fn nine() -> u32 {
    9
}

#[test]
fn take_ret_on_exited_extracts_once() {
    let mut s: S = State::Exited(5);
    assert_eq!(s.take_ret(), Some(5));
    assert!(matches!(s, State::Invalid));
    // A second extraction finds nothing and changes nothing.
    assert_eq!(s.take_ret(), None);
    assert!(matches!(s, State::Invalid));
}

#[test]
fn take_ret_on_ready_returns_nothing() {
    let mut s: S = State::Ready(nine);
    assert_eq!(s.take_ret(), None);
    assert!(matches!(s, State::Ready(_)));
}

#[test]
fn take_ret_on_running_returns_nothing() {
    let mut s: S = State::Running;
    assert_eq!(s.take_ret(), None);
    assert!(matches!(s, State::Running));
}

#[test]
fn take_ret_on_invalid_returns_nothing() {
    let mut s: S = State::Invalid;
    assert_eq!(s.take_ret(), None);
    assert!(matches!(s, State::Invalid));
}
