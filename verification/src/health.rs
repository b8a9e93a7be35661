//! Health checking: the blocking SOCKS5 validator, its handshake session
//! machine, geolocation-response parsing, and the checker configuration
//! and result types.

pub mod checker;
pub mod geo;
pub mod handshake;
pub mod validator;
