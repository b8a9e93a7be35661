//! An end-to-end chain over in-memory byte exchanges: a local client
//! greets the acceptor, the acceptor chains through an upstream that
//! accepts unauthenticated CONNECT to an echo target, and five bytes come
//! back with counters (5, 5).

use clash_chain_patcher::health::handshake::{ClientHandshake, SessionAction, SessionInput};
use clash_chain_patcher::proxy::config::{ProxyConfig, UpstreamConfig};
use clash_chain_patcher::proxy::relay::relay_in_memory;
use clash_chain_patcher::proxy::server::ProxyServer;
use clash_chain_patcher::proxy::upstream::{create_upstream, UpstreamProxy};
use clash_chain_patcher::socks5::{
    decode_connect_request, encode_connect_request, encode_greeting, encode_method_selection,
    encode_reply, parse_greeting, RequestDecode, TargetAddress,
};

#[test]
fn test_end_to_end_chain_in_memory() {
    // The local client greets the acceptor, which never authenticates
    // local callers.
    let greeting = encode_greeting(false);
    let methods = parse_greeting(&greeting).expect("the client greeting is well-formed");
    assert!(methods.contains(&0x00));
    assert_eq!(encode_method_selection(0x00), vec![0x05, 0x00]);

    // The client asks to CONNECT to the echo server.
    let echo_target = TargetAddress::Ipv4([127, 0, 0, 1], 7007);
    let request = encode_connect_request(&echo_target);
    let decoded = match decode_connect_request(&request) {
        RequestDecode::Valid(t) => t,
        _ => panic!("the CONNECT request must decode"),
    };
    assert_eq!(decoded.port(), 7007);

    // The acceptor opens the upstream leg: a client handshake against a
    // test upstream that accepts unauthenticated CONNECT.
    let mut upstream_session = ClientHandshake::new(None, None, decoded);
    let sent_greeting = match upstream_session.start() {
        SessionAction::SendThenRead(frame, 2) => frame,
        _ => panic!("the upstream leg starts with the greeting"),
    };
    assert_eq!(sent_greeting[0], 0x05);
    // The test upstream selects "no auth".
    let connect_frame = match upstream_session.step(SessionInput::Bytes(vec![0x05, 0x00])) {
        SessionAction::SendThenRead(frame, 10) => frame,
        _ => panic!("no-auth leads straight to CONNECT"),
    };
    assert_eq!(connect_frame, request);
    // The test upstream accepts the CONNECT.
    let reply = encode_reply(0x00);
    match upstream_session.step(SessionInput::Bytes(reply)) {
        SessionAction::Succeed => {}
        _ => panic!("the upstream leg must be established"),
    }

    // The acceptor reports success to the local client and relays.
    assert_eq!(encode_reply(0x00)[1], 0x00);
    let client_to_upstream = vec![b"hello".to_vec()];
    let upstream_to_client = vec![b"hello".to_vec()];
    let (sent, received) = relay_in_memory(&client_to_upstream, &upstream_to_client);
    assert_eq!((sent, received), (5, 5));
}

#[test]
fn test_server_wraps_upstream_config() {
    let config = ProxyConfig::default();
    let server = ProxyServer::new(config);
    assert_eq!(server.config().listen_addr, "127.0.0.1:10808");
    assert_eq!(server.upstream().config().port, 1080);
}

#[test]
fn test_upstream_handle() {
    let config = UpstreamConfig {
        host: "upstream.example".to_string(),
        port: 9050,
        username: None,
        password: None,
    };
    let proxy = UpstreamProxy::new(config);
    assert_eq!(proxy.config().host, "upstream.example");
    assert!(!proxy.config().has_credentials());

    let shared = create_upstream(UpstreamConfig::default());
    assert_eq!(shared.config().port, 1080);
}
