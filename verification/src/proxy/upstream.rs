//! The upstream SOCKS5 proxy handle. Opening the TCP connection and
//! driving the client handshake are transport work the caller performs;
//! the handle owns the configuration, and the credential policy it answers
//! decides whether the handshake offers authentication.

use vstd::prelude::*;

use crate::proxy::config::UpstreamConfig;
use std::sync::Arc;

verus! {

/// An upstream SOCKS5 proxy.
pub struct UpstreamProxy {
    config: UpstreamConfig,
}

impl UpstreamProxy {
    pub closed spec fn spec_config(&self) -> UpstreamConfig {
        self.config
    }

    /// Wrap an upstream configuration.
    pub fn new(config: UpstreamConfig) -> (r: UpstreamProxy)
        ensures
            r.spec_config() == config,
    {
        UpstreamProxy { config }
    }

    /// The upstream configuration.
    pub fn config(&self) -> (r: &UpstreamConfig)
        ensures
            *r == self.spec_config(),
    {
        &self.config
    }
}

/// A shared handle to an upstream proxy, as the acceptor hands to each
/// connection task.
pub fn create_upstream(config: UpstreamConfig) -> (r: Arc<UpstreamProxy>)
    ensures
        (*r).spec_config() == config,
{
    Arc::new(UpstreamProxy::new(config))
}

} // verus!
