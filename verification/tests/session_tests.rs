//! The client handshake session machine, driven frame by frame.

use clash_chain_patcher::health::handshake::{
    ClientHandshake, SessionAction, SessionInput,
};
use clash_chain_patcher::socks5::{ProxyError, TargetAddress};

fn probe_target() -> TargetAddress {
    TargetAddress::domain("google.com", 80).expect("fixed probe target is well-formed")
}

#[test]
fn test_start_sends_both_methods() {
    let mut session = ClientHandshake::new(None, None, probe_target());
    match session.start() {
        SessionAction::SendThenRead(frame, n) => {
            assert_eq!(frame, vec![0x05, 0x02, 0x00, 0x02]);
            assert_eq!(n, 2);
        }
        _ => panic!("the greeting must be sent first"),
    }
}

#[test]
fn test_method_rejection_fails_without_sending() {
    let mut session = ClientHandshake::new(None, None, probe_target());
    session.start();
    match session.step(SessionInput::Bytes(vec![0x05, 0xFF])) {
        SessionAction::Fail(ProxyError::HandshakeRejected) => {}
        _ => panic!("method 0xFF must fail the handshake with HandshakeRejected"),
    }
}

#[test]
fn test_auth_demand_without_credentials_fails_fast() {
    let mut session = ClientHandshake::new(None, None, probe_target());
    session.start();
    match session.step(SessionInput::Bytes(vec![0x05, 0x02])) {
        SessionAction::Fail(ProxyError::AuthenticationFailed) => {}
        _ => panic!("a credential demand without credentials must fail immediately"),
    }
}

#[test]
fn test_auth_subnegotiation_frame_and_rejection() {
    let mut session = ClientHandshake::new(
        Some(vec![b'u']),
        Some(vec![b'p']),
        probe_target(),
    );
    session.start();
    match session.step(SessionInput::Bytes(vec![0x05, 0x02])) {
        SessionAction::SendThenRead(frame, n) => {
            assert_eq!(frame, vec![0x01, 1, b'u', 1, b'p']);
            assert_eq!(n, 2);
        }
        _ => panic!("credentials present: the sub-negotiation frame must be sent"),
    }
    match session.step(SessionInput::Bytes(vec![0x01, 0x01])) {
        SessionAction::Fail(ProxyError::AuthenticationFailed) => {}
        _ => panic!("status 0x01 must fail with AuthenticationFailed"),
    }
}

#[test]
fn test_successful_no_auth_handshake() {
    let mut session = ClientHandshake::new(None, None, probe_target());
    session.start();
    match session.step(SessionInput::Bytes(vec![0x05, 0x00])) {
        SessionAction::SendThenRead(frame, n) => {
            assert_eq!(frame[0..4], [0x05, 0x01, 0x00, 0x03]);
            assert_eq!(n, 10);
        }
        _ => panic!("no-auth selection must lead straight to CONNECT"),
    }
    match session.step(SessionInput::Bytes(vec![0x05, 0x00, 0x00, 0x01, 0, 0, 0, 0, 0, 0])) {
        SessionAction::Succeed => {}
        _ => panic!("a zero reply code completes the handshake"),
    }
}

#[test]
fn test_connect_rejection_preserves_code() {
    let mut session = ClientHandshake::new(None, None, probe_target());
    session.start();
    session.step(SessionInput::Bytes(vec![0x05, 0x00]));
    match session.step(SessionInput::Bytes(vec![0x05, 0x05, 0x00, 0x01, 0, 0, 0, 0, 0, 0])) {
        SessionAction::Fail(ProxyError::UpstreamRejected(code)) => assert_eq!(code, 0x05),
        _ => panic!("a nonzero reply code must fail with that code"),
    }
}

#[test]
fn test_timeout_fails_the_session() {
    let mut session = ClientHandshake::new(None, None, probe_target());
    session.start();
    match session.step(SessionInput::TimedOut) {
        SessionAction::Fail(ProxyError::ConnectTimeout) => {}
        _ => panic!("a timeout must fail with ConnectTimeout"),
    }
}

#[test]
fn test_transport_failure_carries_description() {
    let mut session = ClientHandshake::new(None, None, probe_target());
    session.start();
    match session.step(SessionInput::Failed("connection reset".to_string())) {
        SessionAction::Fail(ProxyError::Io(d)) => assert_eq!(d, "connection reset"),
        _ => panic!("a transport failure must fail with Io"),
    }
}
