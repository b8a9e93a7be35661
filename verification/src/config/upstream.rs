//! Persisted upstream proxy records: identity, display name, the upstream
//! address and credentials, and the proxy's health state with its
//! transition rules.

use vstd::prelude::*;

use crate::proxy::config::UpstreamConfig;

verus! {

/// Relies on `uuid::Uuid::new_v4` and its `Display`: a random version-4
/// UUID rendered in the 36-character hyphenated form. The value is random,
/// so nothing but its length is assumed.
#[verifier::external_body]
fn new_uuid_string() -> (r: String)
    ensures
        r@.len() == 36,
{
    uuid::Uuid::new_v4().to_string()
}

/// Relies on `std::time::SystemTime::now` and `duration_since`: whole
/// milliseconds since the Unix epoch, zero if the clock reads earlier than
/// that. The value depends on the clock, so nothing is assumed of it.
#[verifier::external_body]
fn now_unix_millis() -> u64 {
    match std::time::SystemTime::now().duration_since(std::time::UNIX_EPOCH) {
        Ok(d) => d.as_millis() as u64,
        Err(_) => 0,
    }
}

/// An upstream proxy as the configuration stores it.
#[derive(Debug, Clone)]
pub struct UpstreamProxy {
    /// Unique identifier, a hyphenated UUID.
    pub id: String,
    /// Display name.
    pub name: String,
    /// Whether the proxy takes part in chaining and health checks.
    pub enabled: bool,
    /// Host, port and optional credentials.
    pub config: UpstreamConfig,
    /// Health state.
    pub health: ProxyHealth,
}

impl UpstreamProxy {
    /// A new enabled proxy with a fresh identifier and unknown health.
    pub fn new(name: String, config: UpstreamConfig) -> (r: UpstreamProxy)
        ensures
            r.id@.len() == 36,
            r.name == name,
            r.enabled,
            r.config == config,
            r.health.status is Unknown,
            r.health.latency_ms is None,
            r.health.last_check is None,
            r.health.error is None,
            r.health.consecutive_failures == 0,
            r.health.exit_ip is None,
            r.health.location is None,
            r.health.country_code is None,
    {
        UpstreamProxy {
            id: new_uuid_string(),
            name,
            enabled: true,
            config,
            health: ProxyHealth::default(),
        }
    }

    /// Build a proxy from a proxy string (`user:pass@host:port` or
    /// `host:port[:user:pass]`); rejected strings name themselves in the
    /// error.
    pub fn from_proxy_string(name: String, proxy_str: &str) -> (r: Result<UpstreamProxy, String>)
        ensures
            match r {
                Ok(p) => {
                    match crate::proxy::config::spec_parse_upstream(proxy_str@) {
                        Some(q) => p.name == name && p.enabled && p.id@.len() == 36
                            && p.config.host@ == q.host && p.config.port == q.port
                            && crate::proxy::config::option_view(p.config.username) == q.username
                            && crate::proxy::config::option_view(p.config.password) == q.password,
                        None => false,
                    }
                },
                Err(e) => crate::proxy::config::spec_parse_upstream(proxy_str@) is None && e@
                    == "Invalid proxy string format: "@ + proxy_str@,
            },
    {
        match UpstreamConfig::from_proxy_string(proxy_str) {
            Some(config) => Ok(UpstreamProxy::new(name, config)),
            None => Err(
                String::from_str("Invalid proxy string format: ").concat(proxy_str),
            ),
        }
    }
}

/// Health status of a proxy.
#[derive(Debug, Clone, Copy, PartialEq, Eq, Structural)]
pub enum HealthStatus {
    Healthy,
    Unhealthy,
    Checking,
    Unknown,
}

/// A proxy's health state: the status, the latest measurement, and the
/// failure streak.
#[derive(Debug, Clone)]
pub struct ProxyHealth {
    /// Current status.
    pub status: HealthStatus,
    /// Latency of the last passing check, in milliseconds.
    pub latency_ms: Option<u64>,
    /// When the last check ran, in milliseconds since the Unix epoch.
    pub last_check: Option<u64>,
    /// Diagnostic of the last failing check.
    pub error: Option<String>,
    /// Consecutive failures so far; saturates rather than wraps.
    pub consecutive_failures: u32,
    /// Exit IP observed through the proxy, when known.
    pub exit_ip: Option<String>,
    /// Human-readable location of the exit IP, when known.
    pub location: Option<String>,
    /// Country code of the exit IP, when known.
    pub country_code: Option<String>,
}

impl Default for ProxyHealth {
    /// Unknown, unmeasured, with no failures.
    fn default() -> (r: ProxyHealth)
        ensures
            r.status is Unknown,
            r.latency_ms is None,
            r.last_check is None,
            r.error is None,
            r.consecutive_failures == 0,
            r.exit_ip is None,
            r.location is None,
            r.country_code is None,
    {
        ProxyHealth {
            status: HealthStatus::Unknown,
            latency_ms: None,
            last_check: None,
            error: None,
            consecutive_failures: 0,
            exit_ip: None,
            location: None,
            country_code: None,
        }
    }
}

impl ProxyHealth {
    /// Record a passing check: healthy, with this latency, checked now,
    /// no error, and the failure streak reset. Exit IP and location are
    /// untouched.
    pub fn mark_healthy(&mut self, latency_ms: u64)
        ensures
            final(self).status is Healthy,
            final(self).latency_ms == Some(latency_ms),
            final(self).last_check is Some,
            final(self).error is None,
            final(self).consecutive_failures == 0,
            final(self).exit_ip == old(self).exit_ip,
            final(self).location == old(self).location,
            final(self).country_code == old(self).country_code,
    {
        self.status = HealthStatus::Healthy;
        self.latency_ms = Some(latency_ms);
        self.last_check = Some(now_unix_millis());
        self.error = None;
        self.consecutive_failures = 0;
    }

    /// Record a passing check together with what the validator learned
    /// about the exit.
    pub fn mark_healthy_with_details(
        &mut self,
        latency_ms: u64,
        exit_ip: Option<String>,
        location: Option<String>,
        country_code: Option<String>,
    )
        ensures
            final(self).status is Healthy,
            final(self).latency_ms == Some(latency_ms),
            final(self).last_check is Some,
            final(self).error is None,
            final(self).consecutive_failures == 0,
            final(self).exit_ip == exit_ip,
            final(self).location == location,
            final(self).country_code == country_code,
    {
        self.mark_healthy(latency_ms);
        self.exit_ip = exit_ip;
        self.location = location;
        self.country_code = country_code;
    }

    /// Record a failing check: unhealthy, no latency, checked now, this
    /// error, and the failure streak one longer (saturating at the
    /// counter's maximum).
    pub fn mark_unhealthy(&mut self, error: String)
        ensures
            final(self).status is Unhealthy,
            final(self).latency_ms is None,
            final(self).last_check is Some,
            final(self).error == Some(error),
            final(self).consecutive_failures == (if old(self).consecutive_failures < u32::MAX {
                (old(self).consecutive_failures + 1) as u32
            } else {
                u32::MAX
            }),
            final(self).exit_ip == old(self).exit_ip,
            final(self).location == old(self).location,
            final(self).country_code == old(self).country_code,
    {
        self.status = HealthStatus::Unhealthy;
        self.latency_ms = None;
        self.last_check = Some(now_unix_millis());
        self.error = Some(error);
        if self.consecutive_failures < u32::MAX {
            self.consecutive_failures = self.consecutive_failures + 1;
        }
    }

    /// Record that a check is under way; only the status and check time
    /// change.
    pub fn mark_checking(&mut self)
        ensures
            final(self).status is Checking,
            final(self).last_check is Some,
            final(self).latency_ms == old(self).latency_ms,
            final(self).error == old(self).error,
            final(self).consecutive_failures == old(self).consecutive_failures,
            final(self).exit_ip == old(self).exit_ip,
            final(self).location == old(self).location,
            final(self).country_code == old(self).country_code,
    {
        self.status = HealthStatus::Checking;
        self.last_check = Some(now_unix_millis());
    }

    /// Whether the proxy is currently healthy.
    pub fn is_healthy(&self) -> (r: bool)
        ensures
            r == (self.status is Healthy),
    {
        matches!(self.status, HealthStatus::Healthy)
    }
}

} // verus!
