//! Stateless SOCKS5 wire codec: byte-exact encoders and decoders for the
//! greeting, method selection, username/password sub-negotiation, CONNECT
//! request and reply frames, and the error taxonomy of the proxy core.
//! Shared by the asynchronous proxy chain and the blocking validator so the
//! two paths cannot drift apart.

use vstd::prelude::*;

use crate::strutil::{decimal_string, spec_decimal};
use vstd::string::{StrSliceExecFns, StringSliceAdditionalSpecFns};

verus! {

/// Every way a proxy operation can fail, one variant per failing protocol
/// step. [`ProxyError::message`] renders each as a diagnostic that names the
/// step, so callers need no protocol knowledge.
#[derive(Debug, Clone)]
pub enum ProxyError {
    /// The upstream host name did not resolve; holds the address text.
    NameResolution(String),
    /// A connect, read or write exceeded the configured timeout.
    ConnectTimeout,
    /// The upstream answered the greeting with method 0xFF.
    HandshakeRejected,
    /// Credentials were required and absent, or the sub-negotiation
    /// returned a nonzero status.
    AuthenticationFailed,
    /// A local client asked for a command other than CONNECT.
    CommandNotSupported,
    /// The upstream replied to CONNECT with this nonzero code.
    UpstreamRejected(u8),
    /// Any other transport failure; holds the underlying description.
    Io(String),
    /// The best-effort geolocation lookup failed; never fails validation.
    GeolocationUnavailable,
}

/// The diagnostic text of each error, naming the failing protocol step.
pub open spec fn spec_error_message(e: ProxyError) -> Seq<char> {
    match e {
        ProxyError::NameResolution(d) => "SOCKS5 connection failed: cannot resolve "@ + d@,
        ProxyError::ConnectTimeout => "SOCKS5 connection failed: timed out"@,
        ProxyError::HandshakeRejected => "SOCKS5 connection failed: no acceptable authentication method"@,
        ProxyError::AuthenticationFailed => "SOCKS5 connection failed: authentication rejected"@,
        ProxyError::CommandNotSupported => "SOCKS5 request failed: command not supported"@,
        ProxyError::UpstreamRejected(code) => "SOCKS5 CONNECT failed: reply code "@ + spec_decimal(
            code as nat,
        ),
        ProxyError::Io(d) => "SOCKS5 I/O failed: "@ + d@,
        ProxyError::GeolocationUnavailable => "geolocation lookup failed"@,
    }
}

/// No failure is silent: every diagnostic has at least one character.
pub proof fn lemma_error_message_nonempty(e: ProxyError)
    ensures
        spec_error_message(e).len() > 0,
{
    reveal_strlit("SOCKS5 connection failed: cannot resolve ");
    reveal_strlit("SOCKS5 connection failed: timed out");
    reveal_strlit("SOCKS5 connection failed: no acceptable authentication method");
    reveal_strlit("SOCKS5 connection failed: authentication rejected");
    reveal_strlit("SOCKS5 request failed: command not supported");
    reveal_strlit("SOCKS5 CONNECT failed: reply code ");
    reveal_strlit("SOCKS5 I/O failed: ");
    reveal_strlit("geolocation lookup failed");
}

impl ProxyError {
    /// Render the diagnostic text for logs and validation results.
    pub fn message(&self) -> (r: String)
        ensures
            r@ == spec_error_message(*self),
    {
        match self {
            ProxyError::NameResolution(d) => String::from_str(
                "SOCKS5 connection failed: cannot resolve ",
            ).concat(d.as_str()),
            ProxyError::ConnectTimeout => String::from_str("SOCKS5 connection failed: timed out"),
            ProxyError::HandshakeRejected => String::from_str(
                "SOCKS5 connection failed: no acceptable authentication method",
            ),
            ProxyError::AuthenticationFailed => String::from_str(
                "SOCKS5 connection failed: authentication rejected",
            ),
            ProxyError::CommandNotSupported => String::from_str(
                "SOCKS5 request failed: command not supported",
            ),
            ProxyError::UpstreamRejected(code) => {
                let num = decimal_string(*code as u64);
                String::from_str("SOCKS5 CONNECT failed: reply code ").concat(num.as_str())
            },
            ProxyError::Io(d) => String::from_str("SOCKS5 I/O failed: ").concat(d.as_str()),
            ProxyError::GeolocationUnavailable => String::from_str("geolocation lookup failed"),
        }
    }

    /// The SOCKS5 reply code a local acceptor sends its client when the
    /// upstream leg fails with this error: a code the upstream itself gave
    /// is passed through, resolution failures map to "host unreachable"
    /// (0x04), an unsupported command to 0x07, and everything else to the
    /// general failure code 0x01.
    pub fn reply_code(&self) -> (r: u8)
        ensures
            r == spec_reply_code(*self),
    {
        match self {
            ProxyError::NameResolution(_) => 0x04,
            ProxyError::ConnectTimeout => 0x04,
            ProxyError::CommandNotSupported => 0x07,
            ProxyError::UpstreamRejected(code) => if *code == 0 {
                0x01
            } else {
                *code
            },
            ProxyError::HandshakeRejected => 0x01,
            ProxyError::AuthenticationFailed => 0x01,
            ProxyError::Io(_) => 0x01,
            ProxyError::GeolocationUnavailable => 0x01,
        }
    }
}

/// See [`ProxyError::reply_code`]. The result is always nonzero, so a
/// failure reply can never read as success.
pub open spec fn spec_reply_code(e: ProxyError) -> u8 {
    match e {
        ProxyError::NameResolution(_) => 0x04,
        ProxyError::ConnectTimeout => 0x04,
        ProxyError::CommandNotSupported => 0x07,
        ProxyError::UpstreamRejected(code) => if code == 0 {
            0x01
        } else {
            code
        },
        _ => 0x01,
    }
}

/// A decoded CONNECT destination: an IP address or a domain name of at most
/// 255 bytes, with a nonzero port.
pub enum TargetAddress {
    Ipv4([u8; 4], u16),
    Ipv6([u8; 16], u16),
    Domain(Vec<u8>, u16),
}

impl TargetAddress {
    /// The data-model invariant: the port is nonzero and a domain name fits
    /// the one-byte length prefix.
    pub open spec fn well_formed(&self) -> bool {
        match self {
            TargetAddress::Ipv4(_, port) => port != 0,
            TargetAddress::Ipv6(_, port) => port != 0,
            TargetAddress::Domain(name, port) => port != 0 && name@.len() <= 255,
        }
    }

    /// The destination port.
    pub open spec fn spec_port(&self) -> u16 {
        match self {
            TargetAddress::Ipv4(_, port) => *port,
            TargetAddress::Ipv6(_, port) => *port,
            TargetAddress::Domain(_, port) => *port,
        }
    }

    pub fn port(&self) -> (r: u16)
        ensures
            r == self.spec_port(),
    {
        match self {
            TargetAddress::Ipv4(_, port) => *port,
            TargetAddress::Ipv6(_, port) => *port,
            TargetAddress::Domain(_, port) => *port,
        }
    }

    /// Build a domain-name target from string data, refusing anything the
    /// wire format cannot carry: a name longer than the one-byte length
    /// prefix allows, or a zero port.
    pub fn domain(name: &str, port: u16) -> (r: Option<TargetAddress>)
        ensures
            match r {
                Some(t) => t is Domain && t->Domain_0@ == name.spec_bytes() && t->Domain_1 == port
                    && t.well_formed(),
                None => name.spec_bytes().len() > 255 || port == 0,
            },
    {
        if port == 0 {
            return None;
        }
        let bytes = name.as_bytes_vec();
        if bytes.len() > 255 {
            return None;
        }
        Some(TargetAddress::Domain(bytes, port))
    }
}

/// A port in network byte order: high byte first.
pub open spec fn spec_port_bytes(p: u16) -> Seq<u8> {
    seq![(p / 256) as u8, (p % 256) as u8]
}

/// The address tail of a CONNECT request: ATYP, address bytes, then the
/// two-byte big-endian port.
pub open spec fn spec_addr_bytes(t: TargetAddress) -> Seq<u8> {
    match t {
        TargetAddress::Ipv4(a, p) => seq![0x01u8] + a@ + spec_port_bytes(p),
        TargetAddress::Ipv6(a, p) => seq![0x04u8] + a@ + spec_port_bytes(p),
        TargetAddress::Domain(d, p) => seq![0x03u8, d@.len() as u8] + d@ + spec_port_bytes(p),
    }
}

/// The full CONNECT request frame:
/// `0x05, 0x01, 0x00, ATYP, DST.ADDR, DST.PORT`.
pub open spec fn spec_connect_request(t: TargetAddress) -> Seq<u8> {
    seq![0x05u8, 0x01u8, 0x00u8] + spec_addr_bytes(t)
}

/// The greeting offered by a client that can authenticate:
/// version 5, two methods, "no auth" and "user/pass".
pub open spec fn spec_greeting_with_auth() -> Seq<u8> {
    seq![0x05u8, 0x02u8, 0x00u8, 0x02u8]
}

/// The greeting offered by a client without credentials:
/// version 5, one method, "no auth".
pub open spec fn spec_greeting_no_auth() -> Seq<u8> {
    seq![0x05u8, 0x01u8, 0x00u8]
}

/// Encode the client greeting frame (`0x05, NMETHODS, METHODS[..]`).
///
/// With `offer_userpass` the client offers both "no auth" (0x00) and
/// "user/pass" (0x02); otherwise only "no auth".
pub fn encode_greeting(offer_userpass: bool) -> (r: Vec<u8>)
    ensures
        offer_userpass ==> r@ == spec_greeting_with_auth(),
        !offer_userpass ==> r@ == spec_greeting_no_auth(),
{
    let mut out: Vec<u8> = Vec::new();
    out.push(0x05);
    if offer_userpass {
        out.push(0x02);
        out.push(0x00);
        out.push(0x02);
        assert(out@ =~= spec_greeting_with_auth());
    } else {
        out.push(0x01);
        out.push(0x00);
        assert(out@ =~= spec_greeting_no_auth());
    }
    out
}

/// The username/password sub-negotiation frame:
/// `0x01, ULEN, UNAME, PLEN, PASSWD`.
pub open spec fn spec_userpass_frame(user: Seq<u8>, pass: Seq<u8>) -> Seq<u8> {
    seq![0x01u8, user.len() as u8] + user + seq![pass.len() as u8] + pass
}

/// Encode the username/password sub-negotiation frame.
pub fn encode_userpass(user: &Vec<u8>, pass: &Vec<u8>) -> (r: Vec<u8>)
    requires
        user@.len() <= 255,
        pass@.len() <= 255,
    ensures
        r@ == spec_userpass_frame(user@, pass@),
{
    let mut out: Vec<u8> = Vec::new();
    out.push(0x01);
    out.push(user.len() as u8);
    let mut i: usize = 0;
    while i < user.len()
        invariant
            i <= user@.len() <= 255,
            pass@.len() <= 255,
            out@ == seq![0x01u8, user@.len() as u8] + user@.take(i as int),
        decreases user@.len() - i,
    {
        out.push(user[i]);
        i = i + 1;
        assert(out@ =~= seq![0x01u8, user@.len() as u8] + user@.take(i as int));
    }
    assert(out@ =~= seq![0x01u8, user@.len() as u8] + user@);
    out.push(pass.len() as u8);
    let ghost mid = seq![0x01u8, user@.len() as u8] + user@ + seq![pass@.len() as u8];
    assert(out@ =~= mid);
    let mut j: usize = 0;
    while j < pass.len()
        invariant
            j <= pass@.len() <= 255,
            out@ == mid + pass@.take(j as int),
            mid == seq![0x01u8, user@.len() as u8] + user@ + seq![pass@.len() as u8],
        decreases pass@.len() - j,
    {
        out.push(pass[j]);
        j = j + 1;
        assert(out@ =~= mid + pass@.take(j as int));
    }
    assert(out@ =~= spec_userpass_frame(user@, pass@));
    out
}

/// Encode the CONNECT request for a destination.
pub fn encode_connect_request(t: &TargetAddress) -> (r: Vec<u8>)
    requires
        t.well_formed(),
    ensures
        r@ == spec_connect_request(*t),
{
    let mut out: Vec<u8> = Vec::new();
    out.push(0x05);
    out.push(0x01);
    out.push(0x00);
    let ghost head = seq![0x05u8, 0x01u8, 0x00u8];
    assert(out@ =~= head);
    match t {
        TargetAddress::Ipv4(a, p) => {
            out.push(0x01);
            let mut i: usize = 0;
            while i < 4
                invariant
                    i <= 4,
                    a@.len() == 4,
                    out@ == head + seq![0x01u8] + a@.take(i as int),
                decreases 4 - i,
            {
                out.push(a[i]);
                i = i + 1;
                assert(out@ =~= head + seq![0x01u8] + a@.take(i as int));
            }
            assert(out@ =~= head + seq![0x01u8] + a@);
            out.push((*p / 256) as u8);
            out.push((*p % 256) as u8);
            assert(out@ =~= spec_connect_request(*t));
        },
        TargetAddress::Ipv6(a, p) => {
            out.push(0x04);
            let mut i: usize = 0;
            while i < 16
                invariant
                    i <= 16,
                    a@.len() == 16,
                    out@ == head + seq![0x04u8] + a@.take(i as int),
                decreases 16 - i,
            {
                out.push(a[i]);
                i = i + 1;
                assert(out@ =~= head + seq![0x04u8] + a@.take(i as int));
            }
            assert(out@ =~= head + seq![0x04u8] + a@);
            out.push((*p / 256) as u8);
            out.push((*p % 256) as u8);
            assert(out@ =~= spec_connect_request(*t));
        },
        TargetAddress::Domain(d, p) => {
            out.push(0x03);
            out.push(d.len() as u8);
            let ghost mid = head + seq![0x03u8, d@.len() as u8];
            assert(out@ =~= mid);
            let mut i: usize = 0;
            while i < d.len()
                invariant
                    i <= d@.len() <= 255,
                    out@ == mid + d@.take(i as int),
                    mid == head + seq![0x03u8, d@.len() as u8],
                decreases d@.len() - i,
            {
                out.push(d[i]);
                i = i + 1;
                assert(out@ =~= mid + d@.take(i as int));
            }
            assert(out@ =~= mid + d@);
            out.push((*p / 256) as u8);
            out.push((*p % 256) as u8);
            assert(out@ =~= spec_connect_request(*t));
        },
    }
    out
}

/// What a received CONNECT request frame means to the local acceptor.
pub enum RequestDecode {
    /// A CONNECT request for this destination.
    Valid(TargetAddress),
    /// A well-formed request whose command byte is not CONNECT.
    UnsupportedCommand(u8),
    /// Anything else: wrong version, bad reserved byte, truncated or
    /// oversized frame, or a zero port.
    Malformed,
}

/// Reassemble a 16-bit port from its network-order bytes.
pub open spec fn spec_port_of_bytes(hi: u8, lo: u8) -> u16 {
    (hi as u16 * 256 + lo as u16) as u16
}

proof fn lemma_port_bytes_roundtrip(p: u16)
    ensures
        spec_port_of_bytes((p / 256) as u8, (p % 256) as u8) == p,
{
}

/// Decode a CONNECT request frame, the exact inverse of
/// [`encode_connect_request`]: a valid frame decodes to the one target that
/// encodes to it, and anything that no well-formed target encodes to is
/// reported as unsupported or malformed.
pub fn decode_connect_request(b: &Vec<u8>) -> (r: RequestDecode)
    ensures
        match r {
            RequestDecode::Valid(t) => t.well_formed() && b@ == spec_connect_request(t),
            RequestDecode::UnsupportedCommand(cmd) => b@.len() >= 4 && b@[0] == 0x05 && b@[2]
                == 0x00 && b@[1] == cmd && cmd != 0x01,
            RequestDecode::Malformed => (forall|t: TargetAddress|
                t.well_formed() ==> b@ != #[trigger] spec_connect_request(t)) && !(b@.len() >= 4
                && b@[0] == 0x05 && b@[2] == 0x00 && b@[1] != 0x01),
        },
{
    if b.len() < 4 {
        proof {
            assert forall|t: TargetAddress| t.well_formed() implies b@
                != #[trigger] spec_connect_request(t) by {
                assert(spec_connect_request(t).len() >= 7);
            }
        }
        return RequestDecode::Malformed;
    }
    if b[0] != 0x05 || b[2] != 0x00 {
        proof {
            assert forall|t: TargetAddress| t.well_formed() implies b@
                != #[trigger] spec_connect_request(t) by {
                assert(spec_connect_request(t)[0] == 0x05);
                assert(spec_connect_request(t)[2] == 0x00);
            }
        }
        return RequestDecode::Malformed;
    }
    if b[1] != 0x01 {
        return RequestDecode::UnsupportedCommand(b[1]);
    }
    let atyp = b[3];
    if atyp == 0x01 {
        if b.len() != 10 {
            proof {
                lemma_no_target_matches(b@);
            }
            return RequestDecode::Malformed;
        }
        let mut addr: [u8; 4] = [0u8; 4];
        let mut i: usize = 0;
        while i < 4
            invariant
                i <= 4,
                b@.len() == 10,
                addr@.len() == 4,
                forall|j: int| 0 <= j < i ==> addr@[j] == b@[4 + j],
            decreases 4 - i,
        {
            addr[i] = b[4 + i];
            i = i + 1;
        }
        let port = parse_port(b[8], b[9]);
        if port == 0 {
            proof {
                lemma_no_target_matches(b@);
            }
            return RequestDecode::Malformed;
        }
        let t = TargetAddress::Ipv4(addr, port);
        proof {
            lemma_port_bytes_roundtrip(port);
            assert(b@ =~= spec_connect_request(t));
        }
        RequestDecode::Valid(t)
    } else if atyp == 0x04 {
        if b.len() != 22 {
            proof {
                lemma_no_target_matches(b@);
            }
            return RequestDecode::Malformed;
        }
        let mut addr: [u8; 16] = [0u8; 16];
        let mut i: usize = 0;
        while i < 16
            invariant
                i <= 16,
                b@.len() == 22,
                addr@.len() == 16,
                forall|j: int| 0 <= j < i ==> addr@[j] == b@[4 + j],
            decreases 16 - i,
        {
            addr[i] = b[4 + i];
            i = i + 1;
        }
        let port = parse_port(b[20], b[21]);
        if port == 0 {
            proof {
                lemma_no_target_matches(b@);
            }
            return RequestDecode::Malformed;
        }
        let t = TargetAddress::Ipv6(addr, port);
        proof {
            lemma_port_bytes_roundtrip(port);
            assert(b@ =~= spec_connect_request(t));
        }
        RequestDecode::Valid(t)
    } else if atyp == 0x03 {
        if b.len() < 7 {
            proof {
                lemma_no_target_matches(b@);
            }
            return RequestDecode::Malformed;
        }
        let dlen: usize = b[4] as usize;
        if b.len() != 7 + dlen {
            proof {
                lemma_no_target_matches(b@);
            }
            return RequestDecode::Malformed;
        }
        let mut name: Vec<u8> = Vec::new();
        let mut i: usize = 0;
        while i < dlen
            invariant
                i <= dlen <= 255,
                b@.len() == 7 + dlen,
                name@ == b@.subrange(5, 5 + i as int),
            decreases dlen - i,
        {
            name.push(b[5 + i]);
            i = i + 1;
            assert(name@ =~= b@.subrange(5, 5 + i as int));
        }
        let port = parse_port(b[5 + dlen], b[6 + dlen]);
        if port == 0 {
            proof {
                lemma_no_target_matches(b@);
            }
            return RequestDecode::Malformed;
        }
        let t = TargetAddress::Domain(name, port);
        proof {
            lemma_port_bytes_roundtrip(port);
            assert(b@ =~= spec_connect_request(t));
        }
        RequestDecode::Valid(t)
    } else {
        proof {
            lemma_no_target_matches(b@);
        }
        RequestDecode::Malformed
    }
}

/// For a frame that passed the header checks but fails the address-specific
/// shape or port check, no well-formed target encodes to it.
proof fn lemma_no_target_matches(b: Seq<u8>)
    requires
        b.len() >= 4,
        b[0] == 0x05,
        b[1] == 0x01,
        b[2] == 0x00,
        b[3] == 0x01 ==> b.len() != 10 || spec_port_of_bytes(b[8], b[9]) == 0,
        b[3] == 0x04 ==> b.len() != 22 || spec_port_of_bytes(b[20], b[21]) == 0,
        b[3] == 0x03 ==> b.len() < 7 || b.len() != 7 + b[4] || (b.len() == 7 + b[4]
            && spec_port_of_bytes(b[b.len() - 2], b[b.len() - 1]) == 0),
    ensures
        forall|t: TargetAddress| t.well_formed() ==> b != #[trigger] spec_connect_request(t),
{
    assert forall|t: TargetAddress| t.well_formed() implies b != #[trigger] spec_connect_request(
        t,
    ) by {
        let e = spec_connect_request(t);
        if b == e {
            match t {
                TargetAddress::Ipv4(a, p) => {
                    assert(e[3] == 0x01);
                    assert(e.len() == 10);
                    assert(e[8] == (p / 256) as u8 && e[9] == (p % 256) as u8);
                    lemma_port_bytes_roundtrip(p);
                },
                TargetAddress::Ipv6(a, p) => {
                    assert(e[3] == 0x04);
                    assert(e.len() == 22);
                    assert(e[20] == (p / 256) as u8 && e[21] == (p % 256) as u8);
                    lemma_port_bytes_roundtrip(p);
                },
                TargetAddress::Domain(d, p) => {
                    assert(e[3] == 0x03);
                    assert(e[4] == d@.len() as u8);
                    assert(e.len() == 7 + d@.len());
                    assert(e[e.len() - 2] == (p / 256) as u8 && e[e.len() - 1] == (p
                        % 256) as u8);
                    lemma_port_bytes_roundtrip(p);
                },
            }
        }
    }
}

/// Reassemble a port from its network-order bytes.
pub fn parse_port(hi: u8, lo: u8) -> (r: u16)
    ensures
        r == spec_port_of_bytes(hi, lo),
{
    (hi as u16) * 256 + (lo as u16)
}

/// Interpret the two-byte method selection reply (`0x05, METHOD`): a wrong
/// version byte is a protocol violation, method 0xFF means the handshake
/// was rejected, and any other method is handed back to the caller.
pub fn parse_method_selection(b0: u8, b1: u8) -> (r: Result<u8, ProxyError>)
    ensures
        b0 != 0x05 ==> (r matches Err(e) && e is Io),
        b0 == 0x05 && b1 == 0xFF ==> (r matches Err(e) && e is HandshakeRejected),
        b0 == 0x05 && b1 != 0xFF ==> r == Ok::<u8, ProxyError>(b1),
{
    if b0 != 0x05 {
        Err(ProxyError::Io(String::from_str("invalid SOCKS version in method reply")))
    } else if b1 == 0xFF {
        Err(ProxyError::HandshakeRejected)
    } else {
        Ok(b1)
    }
}

/// Interpret the two-byte sub-negotiation reply (`0x01, STATUS`): any
/// nonzero status is an authentication failure. The version byte carries no
/// information and is ignored, as the blocking validator always did.
pub fn parse_auth_reply(status: u8) -> (r: Result<(), ProxyError>)
    ensures
        status == 0x00 ==> r is Ok,
        status != 0x00 ==> (r matches Err(e) && e is AuthenticationFailed),
{
    if status != 0x00 {
        Err(ProxyError::AuthenticationFailed)
    } else {
        Ok(())
    }
}

/// Interpret a CONNECT reply header: byte 1 is the reply code, and any
/// nonzero code fails the request with that code preserved.
pub fn parse_connect_reply(b: &Vec<u8>) -> (r: Result<(), ProxyError>)
    requires
        b@.len() >= 2,
    ensures
        b@[1] == 0x00 ==> r is Ok,
        b@[1] != 0x00 ==> (r matches Err(e) && e == ProxyError::UpstreamRejected(b@[1])),
{
    let code = b[1];
    if code != 0x00 {
        Err(ProxyError::UpstreamRejected(code))
    } else {
        Ok(())
    }
}

/// The method-selection frame a server sends (`0x05, METHOD`).
pub open spec fn spec_method_selection(method: u8) -> Seq<u8> {
    seq![0x05u8, method]
}

/// Encode the server's method selection; the local acceptor always selects
/// "no auth" (0x00).
pub fn encode_method_selection(method: u8) -> (r: Vec<u8>)
    ensures
        r@ == spec_method_selection(method),
{
    let mut out: Vec<u8> = Vec::new();
    out.push(0x05);
    out.push(method);
    assert(out@ =~= spec_method_selection(method));
    out
}

/// A server reply frame with zero-filled IPv4 bound-address fields:
/// `0x05, REP, 0x00, 0x01, 0.0.0.0, 0`.
pub open spec fn spec_reply_frame(code: u8) -> Seq<u8> {
    seq![0x05u8, code, 0x00u8, 0x01u8, 0u8, 0u8, 0u8, 0u8, 0u8, 0u8]
}

/// Encode a server reply; `0x00` reports success, anything else the failure
/// mapped by [`ProxyError::reply_code`]. The bound-address fields are
/// zero-filled, which CONNECT clients ignore.
pub fn encode_reply(code: u8) -> (r: Vec<u8>)
    ensures
        r@ == spec_reply_frame(code),
{
    let mut out: Vec<u8> = Vec::new();
    out.push(0x05);
    out.push(code);
    out.push(0x00);
    out.push(0x01);
    let mut i: usize = 0;
    while i < 6
        invariant
            i <= 6,
            out@ == spec_reply_frame(code).take(4 + i as int),
        decreases 6 - i,
    {
        out.push(0x00);
        i = i + 1;
        assert(out@ =~= spec_reply_frame(code).take(4 + i as int));
    }
    assert(out@ =~= spec_reply_frame(code));
    out
}

/// A client greeting decoded by the server side: the offered methods.
pub fn parse_greeting(b: &Vec<u8>) -> (r: Option<Vec<u8>>)
    ensures
        match r {
            Some(methods) => b@.len() >= 2 && b@[0] == 0x05 && methods@.len() == b@[1]
                && b@.len() == 2 + b@[1] && methods@ == b@.skip(2),
            None => !(b@.len() >= 2 && b@[0] == 0x05 && b@.len() == 2 + b@[1]),
        },
{
    if b.len() < 2 {
        return None;
    }
    if b[0] != 0x05 {
        return None;
    }
    let n: usize = b[1] as usize;
    if b.len() != 2 + n {
        return None;
    }
    let mut methods: Vec<u8> = Vec::new();
    let mut i: usize = 0;
    while i < n
        invariant
            i <= n <= 255,
            b@.len() == 2 + n,
            methods@ == b@.subrange(2, 2 + i as int),
        decreases n - i,
    {
        methods.push(b[2 + i]);
        i = i + 1;
        assert(methods@ =~= b@.subrange(2, 2 + i as int));
    }
    assert(methods@ =~= b@.skip(2));
    Some(methods)
}

/// Whether two targets name the same destination: the same address family,
/// the same address bytes, and the same port.
pub open spec fn spec_same_target(t1: TargetAddress, t2: TargetAddress) -> bool {
    match (t1, t2) {
        (TargetAddress::Ipv4(a1, p1), TargetAddress::Ipv4(a2, p2)) => a1@ == a2@ && p1 == p2,
        (TargetAddress::Ipv6(a1, p1), TargetAddress::Ipv6(a2, p2)) => a1@ == a2@ && p1 == p2,
        (TargetAddress::Domain(d1, p1), TargetAddress::Domain(d2, p2)) => d1@ == d2@ && p1 == p2,
        _ => false,
    }
}

/// The ATYP byte a target encodes to.
pub open spec fn spec_atyp(t: TargetAddress) -> u8 {
    match t {
        TargetAddress::Ipv4(_, _) => 0x01,
        TargetAddress::Ipv6(_, _) => 0x04,
        TargetAddress::Domain(_, _) => 0x03,
    }
}

proof fn lemma_request_atyp(t: TargetAddress)
    ensures
        spec_connect_request(t)[3] == spec_atyp(t),
{
    match t {
        TargetAddress::Ipv4(a, p) => {},
        TargetAddress::Ipv6(a, p) => {},
        TargetAddress::Domain(d, p) => {},
    }
}

/// Encoding CONNECT requests is injective on well-formed targets: equal
/// frames name the same destination. Together with
/// [`decode_connect_request`] this is the round trip: a conforming
/// counterpart decodes every encoded request to exactly the destination
/// that was encoded.
pub proof fn lemma_connect_request_injective(t1: TargetAddress, t2: TargetAddress)
    requires
        t1.well_formed(),
        t2.well_formed(),
        spec_connect_request(t1) == spec_connect_request(t2),
    ensures
        spec_same_target(t1, t2),
{
    let e1 = spec_connect_request(t1);
    let e2 = spec_connect_request(t2);
    lemma_request_atyp(t1);
    lemma_request_atyp(t2);
    match (t1, t2) {
        (TargetAddress::Ipv4(a1, p1), TargetAddress::Ipv4(a2, p2)) => {
            assert(e1.len() == 10 && e2.len() == 10);
            assert forall|i: int| 0 <= i < 4 implies a1@[i] == a2@[i] by {
                assert(e1[4 + i] == a1@[i]);
                assert(e2[4 + i] == a2@[i]);
            }
            assert(a1@ =~= a2@);
            assert(e1[8] == (p1 / 256) as u8 && e1[9] == (p1 % 256) as u8);
            assert(e2[8] == (p2 / 256) as u8 && e2[9] == (p2 % 256) as u8);
            lemma_port_bytes_roundtrip(p1);
            lemma_port_bytes_roundtrip(p2);
        },
        (TargetAddress::Ipv6(a1, p1), TargetAddress::Ipv6(a2, p2)) => {
            assert(e1.len() == 22 && e2.len() == 22);
            assert forall|i: int| 0 <= i < 16 implies a1@[i] == a2@[i] by {
                assert(e1[4 + i] == a1@[i]);
                assert(e2[4 + i] == a2@[i]);
            }
            assert(a1@ =~= a2@);
            assert(e1[20] == (p1 / 256) as u8 && e1[21] == (p1 % 256) as u8);
            assert(e2[20] == (p2 / 256) as u8 && e2[21] == (p2 % 256) as u8);
            lemma_port_bytes_roundtrip(p1);
            lemma_port_bytes_roundtrip(p2);
        },
        (TargetAddress::Domain(d1, p1), TargetAddress::Domain(d2, p2)) => {
            assert(e1.len() == 7 + d1@.len() && e2.len() == 7 + d2@.len());
            assert(d1@.len() == d2@.len());
            assert forall|i: int| 0 <= i < d1@.len() implies d1@[i] == d2@[i] by {
                assert(e1[5 + i] == d1@[i]);
                assert(e2[5 + i] == d2@[i]);
            }
            assert(d1@ =~= d2@);
            let n = d1@.len() as int;
            assert(e1[5 + n] == (p1 / 256) as u8 && e1[6 + n] == (p1 % 256) as u8);
            assert(e2[5 + n] == (p2 / 256) as u8 && e2[6 + n] == (p2 % 256) as u8);
            lemma_port_bytes_roundtrip(p1);
            lemma_port_bytes_roundtrip(p2);
        },
        _ => {
            assert(spec_atyp(t1) == spec_atyp(t2));
            assert(false);
        },
    }
}

} // verus!
