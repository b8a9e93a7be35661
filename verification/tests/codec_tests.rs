//! The SOCKS5 wire codec: byte-exact frames and the request round trip.

use clash_chain_patcher::socks5::{
    decode_connect_request, encode_connect_request, encode_greeting, encode_method_selection,
    encode_reply, encode_userpass, parse_greeting, parse_port, ProxyError, RequestDecode,
    TargetAddress,
};

#[test]
fn test_greeting_frames() {
    assert_eq!(encode_greeting(true), vec![0x05, 0x02, 0x00, 0x02]);
    assert_eq!(encode_greeting(false), vec![0x05, 0x01, 0x00]);
}

#[test]
fn test_userpass_frame_exact() {
    let frame = encode_userpass(&vec![b'u'], &vec![b'p']);
    assert_eq!(frame, vec![0x01, 1, b'u', 1, b'p']);
}

#[test]
fn test_connect_request_ipv4_roundtrip() {
    let target = TargetAddress::Ipv4([10, 0, 0, 1], 8080);
    let frame = encode_connect_request(&target);
    assert_eq!(frame[0..4], [0x05, 0x01, 0x00, 0x01]);
    assert_eq!(frame[4..8], [10, 0, 0, 1]);
    assert_eq!(frame[8..10], [0x1F, 0x90]);
    match decode_connect_request(&frame) {
        RequestDecode::Valid(TargetAddress::Ipv4(addr, port)) => {
            assert_eq!(addr, [10, 0, 0, 1]);
            assert_eq!(port, 8080);
        }
        _ => panic!("expected a valid IPv4 request"),
    }
}

#[test]
fn test_connect_request_ipv6_roundtrip() {
    let addr = [0, 1, 2, 3, 4, 5, 6, 7, 8, 9, 10, 11, 12, 13, 14, 15];
    let target = TargetAddress::Ipv6(addr, 443);
    let frame = encode_connect_request(&target);
    assert_eq!(frame.len(), 22);
    assert_eq!(frame[3], 0x04);
    match decode_connect_request(&frame) {
        RequestDecode::Valid(TargetAddress::Ipv6(a, port)) => {
            assert_eq!(a, addr);
            assert_eq!(port, 443);
        }
        _ => panic!("expected a valid IPv6 request"),
    }
}

#[test]
fn test_connect_request_domain_roundtrip() {
    let target = TargetAddress::Domain(b"google.com".to_vec(), 80);
    let frame = encode_connect_request(&target);
    assert_eq!(
        frame,
        vec![0x05, 0x01, 0x00, 0x03, 10, b'g', b'o', b'o', b'g', b'l', b'e', b'.', b'c', b'o', b'm', 0x00, 0x50]
    );
    match decode_connect_request(&frame) {
        RequestDecode::Valid(TargetAddress::Domain(name, port)) => {
            assert_eq!(name, b"google.com".to_vec());
            assert_eq!(port, 80);
        }
        _ => panic!("expected a valid domain request"),
    }
}

#[test]
fn test_decode_rejects_garbage() {
    assert!(matches!(decode_connect_request(&vec![]), RequestDecode::Malformed));
    assert!(matches!(
        decode_connect_request(&vec![0x04, 0x01, 0x00, 0x01]),
        RequestDecode::Malformed
    ));
    // A BIND command is well-formed but unsupported.
    let bind = vec![0x05, 0x02, 0x00, 0x01, 1, 2, 3, 4, 0, 80];
    assert!(matches!(
        decode_connect_request(&bind),
        RequestDecode::UnsupportedCommand(0x02)
    ));
    // A zero port violates the target invariant.
    let zero_port = vec![0x05, 0x01, 0x00, 0x01, 1, 2, 3, 4, 0, 0];
    assert!(matches!(decode_connect_request(&zero_port), RequestDecode::Malformed));
}

#[test]
fn test_server_frames() {
    assert_eq!(encode_method_selection(0x00), vec![0x05, 0x00]);
    assert_eq!(
        encode_reply(0x00),
        vec![0x05, 0x00, 0x00, 0x01, 0, 0, 0, 0, 0, 0]
    );
    assert_eq!(parse_port(0x1F, 0x90), 8080);
}

#[test]
fn test_parse_greeting() {
    let methods = parse_greeting(&vec![0x05, 0x02, 0x00, 0x02]).expect("well-formed greeting");
    assert_eq!(methods, vec![0x00, 0x02]);
    assert!(parse_greeting(&vec![0x04, 0x01, 0x00]).is_none());
    assert!(parse_greeting(&vec![0x05, 0x02, 0x00]).is_none());
}

#[test]
fn test_error_messages_name_the_step() {
    assert_eq!(
        ProxyError::AuthenticationFailed.message(),
        "SOCKS5 connection failed: authentication rejected"
    );
    assert_eq!(
        ProxyError::UpstreamRejected(4).message(),
        "SOCKS5 CONNECT failed: reply code 4"
    );
    assert_eq!(
        ProxyError::UpstreamRejected(255).message(),
        "SOCKS5 CONNECT failed: reply code 255"
    );
    assert!(!ProxyError::ConnectTimeout.message().is_empty());
    assert!(!ProxyError::HandshakeRejected.message().is_empty());
    assert!(!ProxyError::CommandNotSupported.message().is_empty());
    assert!(!ProxyError::NameResolution("x:1".to_string()).message().is_empty());
    assert!(!ProxyError::Io("broken pipe".to_string()).message().is_empty());
    assert!(!ProxyError::GeolocationUnavailable.message().is_empty());
}

#[test]
fn test_reply_codes() {
    assert_eq!(ProxyError::CommandNotSupported.reply_code(), 0x07);
    assert_eq!(ProxyError::NameResolution("x".to_string()).reply_code(), 0x04);
    assert_eq!(ProxyError::ConnectTimeout.reply_code(), 0x04);
    assert_eq!(ProxyError::UpstreamRejected(5).reply_code(), 5);
    assert_eq!(ProxyError::UpstreamRejected(0).reply_code(), 1);
    assert_eq!(ProxyError::HandshakeRejected.reply_code(), 0x01);
}
