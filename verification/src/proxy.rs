//! The proxy-chain path: configuration, the upstream connector handle, the
//! local acceptor's state, and the relay engine's verified accounting.

pub mod config;
pub mod relay;
pub mod server;
pub mod upstream;
