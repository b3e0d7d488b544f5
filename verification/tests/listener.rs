use broker::listener::{Endpoint, Listener, ListenerAction, ListenerState, FATAL_EXIT_STATUS};

#[test]
fn endpoints_are_on_loopback() {
    assert_eq!(Endpoint::Protocol.address(), "127.0.0.1:4001");
    assert_eq!(Endpoint::App.address(), "127.0.0.1:4000");
    assert_eq!(Endpoint::Event.address(), "127.0.0.1:4002");
}

#[test]
fn fatal_exit_status_is_not_zero() {
    assert_ne!(FATAL_EXIT_STATUS, 0);
    assert_eq!(FATAL_EXIT_STATUS, 1);
}

#[test]
fn listener_binds_then_accepts() {
    let mut listener = Listener::new(Endpoint::App);
    assert_eq!(listener.endpoint(), Endpoint::App);
    assert_eq!(listener.state(), ListenerState::Binding);
    assert_eq!(listener.action(), ListenerAction::Bind(Endpoint::App));
    listener.bound(true);
    assert_eq!(listener.state(), ListenerState::Accepting);
    assert_eq!(listener.action(), ListenerAction::Accept);
    listener.accepted(true);
    listener.accepted(true);
    assert_eq!(listener.action(), ListenerAction::Accept);
}

#[test]
fn listener_that_cannot_bind_ends_the_process() {
    let mut listener = Listener::new(Endpoint::Protocol);
    listener.bound(false);
    assert_eq!(listener.state(), ListenerState::Failed);
    assert_eq!(listener.action(), ListenerAction::Exit(1));
    listener.bound(true);
    listener.accepted(true);
    assert_eq!(listener.action(), ListenerAction::Exit(1));
}

#[test]
fn listener_stops_at_a_failed_accept() {
    let mut listener = Listener::new(Endpoint::Event);
    listener.bound(true);
    listener.accepted(true);
    listener.accepted(false);
    assert_eq!(listener.state(), ListenerState::Stopped);
    assert_eq!(listener.action(), ListenerAction::Stop);
    listener.accepted(true);
    listener.bound(true);
    assert_eq!(listener.action(), ListenerAction::Stop);
}

#[test]
fn listener_ignores_an_accept_before_it_is_bound() {
    let mut listener = Listener::new(Endpoint::Event);
    listener.accepted(false);
    assert_eq!(listener.action(), ListenerAction::Bind(Endpoint::Event));
}
