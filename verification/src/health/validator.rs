//! The blocking SOCKS5 proxy validator's data model: geolocation records,
//! validation results with their invariant, and the validator handle. The
//! validator proves connectivity and credentials with the session machine
//! in [`crate::health::handshake`]; the socket work that drives it is the
//! caller's, so everything here is pure.

use vstd::prelude::*;

use crate::socks5::{spec_error_message, ProxyError};
use vstd::string::StringExecFns;

verus! {

/// Geolocation information for a proxy's exit IP, as the geolocation
/// service reports it.
#[derive(Debug, Clone)]
pub struct LocationInfo {
    pub country: String,
    pub country_code: String,
    pub region: String,
    pub city: String,
    pub timezone: String,
    pub isp: String,
}

/// `format_short`: country code and region, and the city when it is known.
pub open spec fn spec_format_short(l: LocationInfo) -> Seq<char> {
    if l.city@.len() == 0 {
        l.country_code@ + ", "@ + l.region@
    } else {
        l.country_code@ + ", "@ + l.region@ + ", "@ + l.city@
    }
}

/// `format_full`: the short form, then the ISP.
pub open spec fn spec_format_full(l: LocationInfo) -> Seq<char> {
    spec_format_short(l) + " - "@ + l.isp@
}

impl LocationInfo {
    /// Format the location as a short string, e.g. `US, California, Los
    /// Angeles`; the city is omitted when empty.
    pub fn format_short(&self) -> (r: String)
        ensures
            r@ == spec_format_short(*self),
    {
        let mut out = self.country_code.clone();
        out.append(", ");
        out.append(self.region.as_str());
        if !self.city.as_str().is_empty() {
            out.append(", ");
            out.append(self.city.as_str());
        }
        assert(out@ =~= spec_format_short(*self));
        out
    }

    /// Format the location with the ISP appended, e.g.
    /// `US, California, Los Angeles - Example ISP`.
    pub fn format_full(&self) -> (r: String)
        ensures
            r@ == spec_format_full(*self),
    {
        let mut out = self.format_short();
        out.append(" - ");
        out.append(self.isp.as_str());
        assert(out@ =~= spec_format_full(*self));
        out
    }
}

/// The outcome of validating one proxy.
#[derive(Debug, Clone)]
pub struct ProxyValidationResult {
    /// The proxy as `host:port` text.
    pub proxy: String,
    /// Whether the proxy passed validation.
    pub is_valid: bool,
    /// The diagnostic when validation failed, or when only the best-effort
    /// geolocation lookup did.
    pub error: Option<String>,
    /// The exit IP the geolocation service saw, when known.
    pub exit_ip: Option<String>,
    /// Geolocation of the exit IP, when known.
    pub location: Option<LocationInfo>,
    /// Whole milliseconds from TCP connect to the CONNECT success reply;
    /// only present on success.
    pub latency_ms: Option<u64>,
}

impl ProxyValidationResult {
    /// The data-model invariant: a failed validation never carries an exit
    /// IP, a geolocation record or a latency, and always carries an error.
    pub open spec fn well_formed(&self) -> bool {
        !self.is_valid ==> {
            &&& self.exit_ip is None
            &&& self.location is None
            &&& self.latency_ms is None
            &&& self.error is Some
            &&& self.error.unwrap()@.len() > 0
        }
    }

    /// A successful validation whose geolocation lookup also succeeded.
    pub fn valid_with_geo(
        proxy: String,
        latency_ms: u64,
        exit_ip: String,
        location: LocationInfo,
    ) -> (r: ProxyValidationResult)
        ensures
            r.well_formed(),
            r.proxy == proxy,
            r.is_valid,
            r.error is None,
            r.exit_ip == Some(exit_ip),
            r.location == Some(location),
            r.latency_ms == Some(latency_ms),
    {
        ProxyValidationResult {
            proxy,
            is_valid: true,
            error: None,
            exit_ip: Some(exit_ip),
            location: Some(location),
            latency_ms: Some(latency_ms),
        }
    }

    /// A successful validation whose best-effort geolocation lookup failed:
    /// still valid, no exit IP or location, and a diagnostic naming the
    /// lookup as the failing step with the underlying cause appended.
    pub fn valid_without_geo(proxy: String, latency_ms: u64, cause: String) -> (r:
        ProxyValidationResult)
        ensures
            r.well_formed(),
            r.proxy == proxy,
            r.is_valid,
            r.error matches Some(e) && e@ == "Cannot get exit IP: "@ + cause@,
            r.exit_ip is None,
            r.location is None,
            r.latency_ms == Some(latency_ms),
    {
        let msg = String::from_str("Cannot get exit IP: ").concat(cause.as_str());
        ProxyValidationResult {
            proxy,
            is_valid: true,
            error: Some(msg),
            exit_ip: None,
            location: None,
            latency_ms: Some(latency_ms),
        }
    }

    /// A failed validation: the error text names the failing protocol step
    /// and is never empty.
    pub fn invalid(proxy: String, error: &ProxyError) -> (r: ProxyValidationResult)
        ensures
            r.well_formed(),
            r.proxy == proxy,
            !r.is_valid,
            r.error matches Some(e) && e@ == spec_error_message(*error),
            r.exit_ip is None,
            r.location is None,
            r.latency_ms is None,
    {
        proof {
            crate::socks5::lemma_error_message_nonempty(*error);
        }
        ProxyValidationResult {
            proxy,
            is_valid: false,
            error: Some(error.message()),
            exit_ip: None,
            location: None,
            latency_ms: None,
        }
    }
}

/// The SOCKS5 proxy validator: every blocking socket call of a validation
/// is bounded by this timeout, applied alike to connect, read and write.
pub struct ProxyValidator {
    timeout_secs: u64,
}

impl ProxyValidator {
    /// A validator whose socket operations are bounded by `timeout_secs`
    /// seconds.
    pub fn new(timeout_secs: u64) -> (r: ProxyValidator)
        ensures
            r.spec_timeout_secs() == timeout_secs,
    {
        ProxyValidator { timeout_secs }
    }

    pub closed spec fn spec_timeout_secs(&self) -> u64 {
        self.timeout_secs
    }

    /// The configured timeout in seconds.
    pub fn timeout_secs(&self) -> (r: u64)
        ensures
            r == self.spec_timeout_secs(),
    {
        self.timeout_secs
    }
}

} // verus!
