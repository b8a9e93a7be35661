//! A local SOCKS5 chain-proxy core: wire-protocol codec, client handshake
//! session logic, bidirectional relay accounting, proxy validation, and the
//! configuration model around them.

pub mod bridge;
pub mod config;
pub mod health;
pub mod merger;
pub mod patcher;
pub mod proxy;
pub mod socks5;
pub mod strutil;
pub mod watcher;
pub mod yaml;
