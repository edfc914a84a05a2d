use gcdevproxy::binding::{
    accept_state, accepted_info, io_decision, settle_handshake, Attempt, Bindings, ConnectionState,
    Handshake, IoDecision, IoOp, Polled,
};

#[test]
fn listeners_take_turns() {
    let mut bindings: Bindings<&'static str> = Bindings::new();
    assert!(bindings.take_next().is_none());
    bindings.add("a");
    bindings.add("b");
    bindings.add("c");
    assert_eq!(bindings.len(), 3);

    // A cycle without a connection gives every listener one attempt.
    let mut order = Vec::new();
    for _ in 0..bindings.len() {
        let listener = bindings.take_next().unwrap();
        order.push(listener);
        assert!(matches!(bindings.settle::<u8>(listener, Attempt::Pending), Polled::Continue));
    }
    assert_eq!(order, vec!["a", "b", "c"]);

    // A connection on the second listener ends the cycle; the next cycle
    // begins with the third.
    let listener = bindings.take_next().unwrap();
    assert!(matches!(bindings.settle::<u8>(listener, Attempt::Pending), Polled::Continue));
    let listener = bindings.take_next().unwrap();
    assert_eq!(listener, "b");
    assert!(matches!(bindings.settle(listener, Attempt::Accepted(7u8)), Polled::Connection(7)));
    assert_eq!(bindings.take_next(), Some("c"));
    assert!(matches!(bindings.settle::<u8>("c", Attempt::Pending), Polled::Continue));
    assert_eq!(bindings.take_next(), Some("a"));
}

#[test]
fn a_listener_that_failed_is_not_kept() {
    let mut bindings: Bindings<&'static str> = Bindings::new();
    bindings.add("a");
    bindings.add("b");
    let listener = bindings.take_next().unwrap();
    match bindings.settle::<u8>(listener, Attempt::Failed("too many open files".to_string())) {
        Polled::Failed(e) => assert_eq!(e, "too many open files"),
        _ => panic!("the failure is handed out"),
    }
    assert_eq!(bindings.len(), 1);
    assert_eq!(bindings.take_next(), Some("b"));
}

#[test]
fn a_connection_is_described_by_its_addresses() {
    let info = accepted_info("0.0.0.0:443", "198.51.100.1:4000", true);
    assert_eq!(info.local_addr(), "0.0.0.0:443");
    assert_eq!(info.remote_addr(), "198.51.100.1:4000");
    assert!(info.is_https());
    assert!(!accepted_info("0.0.0.0:80", "198.51.100.1:4000", false).is_https());
}

#[test]
fn a_tls_connection_holds_until_its_handshake_has_ended() {
    assert_eq!(accept_state(false), ConnectionState::Tcp);
    assert_eq!(accept_state(true), ConnectionState::PendingTls);
    assert_eq!(io_decision(ConnectionState::PendingTls, IoOp::Read), IoDecision::AwaitHandshake);
    assert_eq!(io_decision(ConnectionState::PendingTls, IoOp::Shutdown), IoDecision::AwaitHandshake);
    assert_eq!(settle_handshake(ConnectionState::PendingTls, Handshake::Completed), ConnectionState::Tls);
    assert_eq!(io_decision(ConnectionState::Tls, IoOp::Write), IoDecision::Delegate);
    assert_eq!(io_decision(ConnectionState::Tcp, IoOp::Flush), IoDecision::Delegate);
    assert_eq!(settle_handshake(ConnectionState::Tcp, Handshake::Failed), ConnectionState::Tcp);
}

#[test]
fn a_failed_handshake_leaves_a_connection_that_fails() {
    let failed = settle_handshake(ConnectionState::PendingTls, Handshake::Failed);
    assert_eq!(failed, ConnectionState::Error);
    assert_eq!(settle_handshake(ConnectionState::PendingTls, Handshake::TimedOut), ConnectionState::Error);
    assert_eq!(settle_handshake(failed, Handshake::Completed), ConnectionState::Error);
    assert_eq!(io_decision(failed, IoOp::Read), IoDecision::BrokenPipe);
    assert_eq!(io_decision(failed, IoOp::Write), IoDecision::BrokenPipe);
    assert_eq!(io_decision(failed, IoOp::Flush), IoDecision::BrokenPipe);
    assert_eq!(io_decision(failed, IoOp::Shutdown), IoDecision::BrokenPipe);
}
