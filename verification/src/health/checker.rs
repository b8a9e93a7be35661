//! Configuration, result types and the decision rules for upstream proxy
//! health checks. A check runs two probes — a SOCKS5 connectivity probe,
//! then an HTTP request through the proxy — and this module decides what
//! each outcome means; opening sockets and speaking HTTP is the caller's
//! work.

use vstd::prelude::*;

verus! {

/// How health checks are run.
#[derive(Debug, Clone)]
pub struct HealthCheckConfig {
    /// Timeout for each health check, in seconds.
    pub timeout_secs: u64,
    /// URL fetched through the proxy to validate forwarding.
    pub test_url: String,
    /// Consecutive failures before a proxy is marked unhealthy.
    pub failure_threshold: u32,
    /// Seconds between periodic checks.
    pub check_interval_secs: u64,
}

impl Default for HealthCheckConfig {
    /// Ten-second checks against a no-content endpoint, three strikes,
    /// every five minutes.
    fn default() -> (r: HealthCheckConfig)
        ensures
            r.timeout_secs == 10,
            r.test_url@ == "http://www.gstatic.com/generate_204"@,
            r.failure_threshold == 3,
            r.check_interval_secs == 300,
    {
        HealthCheckConfig {
            timeout_secs: 10,
            test_url: String::from_str("http://www.gstatic.com/generate_204"),
            failure_threshold: 3,
            check_interval_secs: 300,
        }
    }
}

/// The outcome of one health check.
#[derive(Debug, Clone)]
pub struct HealthCheckResult {
    /// Whether the proxy passed.
    pub is_healthy: bool,
    /// Latency in milliseconds; present exactly on success.
    pub latency_ms: Option<u64>,
    /// Diagnostic text; present exactly on failure.
    pub error: Option<String>,
}

impl HealthCheckResult {
    /// A passing result with its measured latency.
    pub fn healthy(latency_ms: u64) -> (r: HealthCheckResult)
        ensures
            r.is_healthy,
            r.latency_ms == Some(latency_ms),
            r.error is None,
    {
        HealthCheckResult { is_healthy: true, latency_ms: Some(latency_ms), error: None }
    }

    /// A failing result with its diagnostic.
    pub fn unhealthy(error: String) -> (r: HealthCheckResult)
        ensures
            !r.is_healthy,
            r.latency_ms is None,
            r.error == Some(error),
    {
        HealthCheckResult { is_healthy: false, latency_ms: None, error: Some(error) }
    }
}


/// The outcome of one probe, as the transport reports it.
pub enum ProbeOutcome {
    /// The probe passed.
    Passed,
    /// The probe failed; holds the description.
    Failed(String),
}

/// What the SOCKS5 connectivity probe decides: a failure ends the check
/// at once as unhealthy, naming the step; a pass leaves the verdict to
/// the HTTP probe.
pub fn after_socks5_probe(outcome: ProbeOutcome) -> (r: Option<HealthCheckResult>)
    ensures
        match outcome {
            ProbeOutcome::Passed => r is None,
            ProbeOutcome::Failed(e) => (r matches Some(h) && !h.is_healthy
                && h.latency_ms is None && (h.error matches Some(m) && m@
                == "SOCKS5 connection failed: "@ + e@)),
        },
{
    match outcome {
        ProbeOutcome::Passed => None,
        ProbeOutcome::Failed(e) => Some(
            HealthCheckResult::unhealthy(
                String::from_str("SOCKS5 connection failed: ").concat(e.as_str()),
            ),
        ),
    }
}

/// What the HTTP probe decides for a check that passed the SOCKS5 probe:
/// a pass is healthy with the measured latency; a failure is unhealthy,
/// naming the step.
pub fn after_http_probe(outcome: ProbeOutcome, latency_ms: u64) -> (r: HealthCheckResult)
    ensures
        match outcome {
            ProbeOutcome::Passed => r.is_healthy && r.latency_ms == Some(latency_ms)
                && r.error is None,
            ProbeOutcome::Failed(e) => !r.is_healthy && r.latency_ms is None && (r.error
                matches Some(m) && m@ == "HTTP request failed: "@ + e@),
        },
{
    match outcome {
        ProbeOutcome::Passed => HealthCheckResult::healthy(latency_ms),
        ProbeOutcome::Failed(e) => HealthCheckResult::unhealthy(
            String::from_str("HTTP request failed: ").concat(e.as_str()),
        ),
    }
}

} // verus!
