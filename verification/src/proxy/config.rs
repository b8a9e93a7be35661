//! Configuration of the local proxy server and its upstream, and the
//! shared proxy-string parser. A proxy string names an upstream in one of
//! two forms, `user:pass@host:port` or `host:port[:user:pass]`, optionally
//! behind a `socks5://`, `http://` or `https://` scheme prefix.

use vstd::prelude::*;

use crate::strutil::{
    chars_to_string, clone_chars, contains_char, parse_u16_chars, skip_chars, spec_contains_char,
    spec_parse_u16, spec_split, spec_starts_with, spec_trim, split_char, starts_with_chars,
    to_chars, trim_chars,
};

verus! {

/// Configuration for the local proxy server.
#[derive(Debug, Clone)]
pub struct ProxyConfig {
    /// Local listen address, e.g. `127.0.0.1:10808`.
    pub listen_addr: String,
    /// The upstream SOCKS5 proxy every connection is chained through.
    pub upstream: UpstreamConfig,
}

impl Default for ProxyConfig {
    /// Listen locally on port 10808, chaining through the default
    /// upstream.
    fn default() -> (r: ProxyConfig)
        ensures
            r.listen_addr@ == "127.0.0.1:10808"@,
            r.upstream.host@ == "127.0.0.1"@,
            r.upstream.port == 1080,
            r.upstream.username is None,
            r.upstream.password is None,
    {
        ProxyConfig {
            listen_addr: String::from_str("127.0.0.1:10808"),
            upstream: UpstreamConfig {
                host: String::from_str("127.0.0.1"),
                port: 1080,
                username: None,
                password: None,
            },
        }
    }
}

/// Configuration for the upstream SOCKS5 proxy.
#[derive(Debug, Clone)]
pub struct UpstreamConfig {
    /// Upstream proxy host.
    pub host: String,
    /// Upstream proxy port.
    pub port: u16,
    /// Optional username for authentication.
    pub username: Option<String>,
    /// Optional password for authentication.
    pub password: Option<String>,
}

impl Default for UpstreamConfig {
    fn default() -> (r: UpstreamConfig)
        ensures
            r.host@ == "127.0.0.1"@,
            r.port == 1080,
            r.username is None,
            r.password is None,
    {
        UpstreamConfig {
            host: String::from_str("127.0.0.1"),
            port: 1080,
            username: None,
            password: None,
        }
    }
}

impl UpstreamConfig {
    /// The credential policy of the data model: a username and password
    /// come as one optional pair, both present or both absent.
    pub open spec fn credentials_consistent(&self) -> bool {
        self.username is Some <==> self.password is Some
    }

    /// Whether the connector must offer username/password authentication:
    /// exactly when both credentials are present.
    pub fn has_credentials(&self) -> (r: bool)
        ensures
            r == (self.username is Some && self.password is Some),
    {
        self.username.is_some() && self.password.is_some()
    }

    /// Parse an upstream from a proxy string; see [`spec_parse_upstream`]
    /// for the exact grammar. Returns nothing when the string fits neither
    /// form.
    pub fn from_proxy_string(input: &str) -> (r: Option<UpstreamConfig>)
        ensures
            match r {
                Some(c) => match spec_parse_upstream(input@) {
                    Some(q) => c.host@ == q.host && c.port == q.port && option_view(c.username)
                        == q.username && option_view(c.password) == q.password,
                    None => false,
                },
                None => spec_parse_upstream(input@) is None,
            },
{
        let parts = parse_upstream_parts(input);
        match parts {
            Some(p) => Some(
                UpstreamConfig { host: p.0, port: p.1, username: p.2, password: p.3 },
            ),
            None => None,
        }
    }
}

/// The view of an optional string.
pub open spec fn option_view(s: Option<String>) -> Option<Seq<char>> {
    match s {
        Some(v) => Some(v@),
        None => None,
    }
}

/// The components of a parsed proxy string.
pub ghost struct UpstreamParts {
    pub host: Seq<char>,
    pub port: u16,
    pub username: Option<Seq<char>>,
    pub password: Option<Seq<char>>,
}

/// A scheme prefix (`socks5://`, `http://`, `https://`) is dropped; the
/// first match wins, checked in that order.
pub open spec fn spec_strip_scheme(s: Seq<char>) -> Seq<char> {
    if spec_starts_with(s, "socks5://"@) {
        s.skip("socks5://"@.len() as int)
    } else if spec_starts_with(s, "http://"@) {
        s.skip("http://"@.len() as int)
    } else if spec_starts_with(s, "https://"@) {
        s.skip("https://"@.len() as int)
    } else {
        s
    }
}

/// The proxy-string grammar, exactly as the parser reads it. The input is
/// trimmed and its scheme prefix dropped. With an `@` present the form is
/// `user:pass@host:port`: exactly one `@`, at least two `:`-separated
/// fields on each side, and the second server field a valid port. Without
/// one the form is `host:port:user:pass` (four or more fields) or
/// `host:port` (two or three fields). Anything else, or an empty trimmed
/// input, is rejected.
pub open spec fn spec_parse_upstream(s: Seq<char>) -> Option<UpstreamParts> {
    let t = spec_strip_scheme(spec_trim(s));
    if spec_trim(s).len() == 0 {
        None
    } else if spec_contains_char(t, '@') {
        let halves = spec_split(t, '@');
        if halves.len() != 2 {
            None
        } else {
            let auth = spec_split(halves[0], ':');
            let server = spec_split(halves[1], ':');
            if auth.len() < 2 || server.len() < 2 {
                None
            } else {
                match spec_parse_u16(server[1]) {
                    Some(port) => Some(
                        UpstreamParts {
                            host: server[0],
                            port,
                            username: Some(auth[0]),
                            password: Some(auth[1]),
                        },
                    ),
                    None => None,
                }
            }
        }
    } else {
        let fields = spec_split(t, ':');
        if fields.len() >= 4 {
            match spec_parse_u16(fields[1]) {
                Some(port) => Some(
                    UpstreamParts {
                        host: fields[0],
                        port,
                        username: Some(fields[2]),
                        password: Some(fields[3]),
                    },
                ),
                None => None,
            }
        } else if fields.len() >= 2 {
            match spec_parse_u16(fields[1]) {
                Some(port) => Some(
                    UpstreamParts { host: fields[0], port, username: None, password: None },
                ),
                None => None,
            }
        } else {
            None
        }
    }
}

fn strip_scheme(v: &Vec<char>) -> (r: Vec<char>)
    ensures
        r@ == spec_strip_scheme(v@),
{
    let p1 = to_chars("socks5://");
    if starts_with_chars(v, &p1) {
        return skip_chars(v, p1.len());
    }
    let p2 = to_chars("http://");
    if starts_with_chars(v, &p2) {
        return skip_chars(v, p2.len());
    }
    let p3 = to_chars("https://");
    if starts_with_chars(v, &p3) {
        return skip_chars(v, p3.len());
    }
    clone_chars(v)
}

/// Parse a proxy string into host, port and the optional credential pair,
/// per [`spec_parse_upstream`].
pub(crate) fn parse_upstream_parts(input: &str) -> (r: Option<
    (String, u16, Option<String>, Option<String>),
>)
    ensures
        match r {
            Some(p) => match spec_parse_upstream(input@) {
                Some(q) => p.0@ == q.host && p.1 == q.port && option_view(p.2) == q.username
                    && option_view(p.3) == q.password,
                None => false,
            },
            None => spec_parse_upstream(input@) is None,
        },
{
    let chars = to_chars(input);
    let trimmed = trim_chars(&chars);
    if trimmed.len() == 0 {
        return None;
    }
    let t = strip_scheme(&trimmed);
    if contains_char(&t, '@') {
        let halves = split_char(&t, '@');
        if halves.len() != 2 {
            return None;
        }
        let auth = split_char(&halves[0], ':');
        let server = split_char(&halves[1], ':');
        proof {
            assert(halves.deep_view()[0] == halves@[0]@);
            assert(halves.deep_view()[1] == halves@[1]@);
        }
        if auth.len() < 2 || server.len() < 2 {
            return None;
        }
        proof {
            assert(auth.deep_view()[0] == auth@[0]@);
            assert(auth.deep_view()[1] == auth@[1]@);
            assert(server.deep_view()[0] == server@[0]@);
            assert(server.deep_view()[1] == server@[1]@);
        }
        let port = match parse_u16_chars(&server[1]) {
            Some(p) => p,
            None => {
                return None;
            },
        };
        Some(
            (
                chars_to_string(&server[0]),
                port,
                Some(chars_to_string(&auth[0])),
                Some(chars_to_string(&auth[1])),
            ),
        )
    } else {
        let fields = split_char(&t, ':');
        proof {
            assert(fields.deep_view()[0] == fields@[0]@);
        }
        if fields.len() >= 4 {
            proof {
                assert(fields.deep_view()[1] == fields@[1]@);
                assert(fields.deep_view()[2] == fields@[2]@);
                assert(fields.deep_view()[3] == fields@[3]@);
            }
            let port = match parse_u16_chars(&fields[1]) {
                Some(p) => p,
                None => {
                    return None;
                },
            };
            Some(
                (
                    chars_to_string(&fields[0]),
                    port,
                    Some(chars_to_string(&fields[2])),
                    Some(chars_to_string(&fields[3])),
                ),
            )
        } else if fields.len() >= 2 {
            proof {
                assert(fields.deep_view()[1] == fields@[1]@);
            }
            let port = match parse_u16_chars(&fields[1]) {
                Some(p) => p,
                None => {
                    return None;
                },
            };
            Some((chars_to_string(&fields[0]), port, None, None))
        } else {
            None
        }
    }
}

} // verus!
