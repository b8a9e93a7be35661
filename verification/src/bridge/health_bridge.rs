//! A configurable builder for the health-check bridge. The bridge itself
//! owns a runtime and performs network checks, which is the caller's side;
//! the builder assembles the checker configuration it runs with.

use vstd::prelude::*;

use crate::bridge::BridgeResult;
use crate::health::checker::HealthCheckConfig;

verus! {

/// Builds a health-check configuration step by step.
pub struct HealthBridgeBuilder {
    timeout_secs: u64,
    test_url: String,
    failure_threshold: u32,
    check_interval_secs: u64,
}

impl HealthBridgeBuilder {
    pub closed spec fn spec_timeout_secs(&self) -> u64 {
        self.timeout_secs
    }

    pub closed spec fn spec_test_url(&self) -> Seq<char> {
        self.test_url@
    }

    pub closed spec fn spec_failure_threshold(&self) -> u32 {
        self.failure_threshold
    }

    pub closed spec fn spec_check_interval_secs(&self) -> u64 {
        self.check_interval_secs
    }

    /// A builder with the default values: ten-second checks against a
    /// no-content endpoint, three strikes, every minute.
    pub fn new() -> (r: HealthBridgeBuilder)
        ensures
            r.spec_timeout_secs() == 10,
            r.spec_test_url() == "http://www.gstatic.com/generate_204"@,
            r.spec_failure_threshold() == 3,
            r.spec_check_interval_secs() == 60,
    {
        HealthBridgeBuilder {
            timeout_secs: 10,
            test_url: String::from_str("http://www.gstatic.com/generate_204"),
            failure_threshold: 3,
            check_interval_secs: 60,
        }
    }

    /// Set the per-check timeout, in seconds.
    pub fn timeout(self, timeout_secs: u64) -> (r: HealthBridgeBuilder)
        ensures
            r.spec_timeout_secs() == timeout_secs,
            r.spec_test_url() == self.spec_test_url(),
            r.spec_failure_threshold() == self.spec_failure_threshold(),
            r.spec_check_interval_secs() == self.spec_check_interval_secs(),
    {
        HealthBridgeBuilder { timeout_secs, ..self }
    }

    /// Set the test URL.
    pub fn test_url(self, url: &str) -> (r: HealthBridgeBuilder)
        ensures
            r.spec_test_url() == url@,
            r.spec_timeout_secs() == self.spec_timeout_secs(),
            r.spec_failure_threshold() == self.spec_failure_threshold(),
            r.spec_check_interval_secs() == self.spec_check_interval_secs(),
    {
        HealthBridgeBuilder { test_url: url.to_owned(), ..self }
    }

    /// Set the failure threshold.
    pub fn failure_threshold(self, threshold: u32) -> (r: HealthBridgeBuilder)
        ensures
            r.spec_failure_threshold() == threshold,
            r.spec_timeout_secs() == self.spec_timeout_secs(),
            r.spec_test_url() == self.spec_test_url(),
            r.spec_check_interval_secs() == self.spec_check_interval_secs(),
    {
        HealthBridgeBuilder { failure_threshold: threshold, ..self }
    }

    /// Set the interval between periodic checks, in seconds.
    pub fn check_interval(self, interval_secs: u64) -> (r: HealthBridgeBuilder)
        ensures
            r.spec_check_interval_secs() == interval_secs,
            r.spec_timeout_secs() == self.spec_timeout_secs(),
            r.spec_test_url() == self.spec_test_url(),
            r.spec_failure_threshold() == self.spec_failure_threshold(),
    {
        HealthBridgeBuilder { check_interval_secs: interval_secs, ..self }
    }

    /// Assemble the checker configuration. Always succeeds; the result
    /// type matches what a caller that then constructs a runtime expects.
    pub fn build(self) -> (r: BridgeResult<HealthCheckConfig>)
        ensures
            r matches Ok(c) && c.timeout_secs == self.spec_timeout_secs() && c.test_url@
                == self.spec_test_url() && c.failure_threshold == self.spec_failure_threshold()
                && c.check_interval_secs == self.spec_check_interval_secs(),
    {
        Ok(
            HealthCheckConfig {
                timeout_secs: self.timeout_secs,
                test_url: self.test_url,
                failure_threshold: self.failure_threshold,
                check_interval_secs: self.check_interval_secs,
            },
        )
    }
}

} // verus!
