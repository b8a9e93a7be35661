//! The local SOCKS5 acceptor's state. The listener loop — bind, accept,
//! one task per connection — is transport work the caller runs; the server
//! value owns the configuration and the shared upstream handle, and the
//! per-connection protocol decisions live in [`crate::socks5`]: the
//! acceptor selects "no auth", decodes the CONNECT request, maps an
//! upstream failure to a reply code, and zero-fills the bound address in
//! its replies.

use vstd::prelude::*;

use crate::proxy::config::{ProxyConfig, UpstreamConfig};
use crate::proxy::upstream::UpstreamProxy;
use std::sync::Arc;

verus! {

/// Copy an optional string.
pub(crate) fn clone_opt_string(s: &Option<String>) -> (r: Option<String>)
    ensures
        r == *s,
{
    match s {
        Some(v) => Some(v.clone()),
        None => None,
    }
}

/// Copy an upstream configuration field by field.
pub(crate) fn clone_upstream_config(c: &UpstreamConfig) -> (r: UpstreamConfig)
    ensures
        r == *c,
{
    UpstreamConfig {
        host: c.host.clone(),
        port: c.port,
        username: clone_opt_string(&c.username),
        password: clone_opt_string(&c.password),
    }
}

/// The local SOCKS5 proxy server: a listen address and the upstream every
/// accepted connection is chained through.
pub struct ProxyServer {
    config: ProxyConfig,
    upstream: Arc<UpstreamProxy>,
}

impl ProxyServer {
    pub closed spec fn spec_config(&self) -> ProxyConfig {
        self.config
    }

    pub closed spec fn spec_upstream(&self) -> UpstreamProxy {
        *self.upstream
    }

    /// A server for this configuration; the shared upstream handle is
    /// built from the configuration's upstream section.
    pub fn new(config: ProxyConfig) -> (r: ProxyServer)
        ensures
            r.spec_config() == config,
            r.spec_upstream().spec_config() == config.upstream,
    {
        let upstream_config = clone_upstream_config(&config.upstream);
        let upstream = Arc::new(UpstreamProxy::new(upstream_config));
        ProxyServer { config, upstream }
    }

    /// The server configuration.
    pub fn config(&self) -> (r: &ProxyConfig)
        ensures
            *r == self.spec_config(),
    {
        &self.config
    }

    /// The shared upstream handle; the caller clones it once per accepted
    /// connection.
    pub fn upstream(&self) -> (r: &Arc<UpstreamProxy>)
        ensures
            **r == self.spec_upstream(),
    {
        &self.upstream
    }
}

} // verus!
