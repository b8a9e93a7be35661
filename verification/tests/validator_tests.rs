//! The validator's data model: location formatting, result invariants and
//! the validator handle.

use clash_chain_patcher::health::checker::{
    after_http_probe, after_socks5_probe, HealthCheckResult, ProbeOutcome,
};
use clash_chain_patcher::health::validator::{
    LocationInfo, ProxyValidationResult, ProxyValidator,
};
use clash_chain_patcher::socks5::ProxyError;

fn example_location() -> LocationInfo {
    LocationInfo {
        country: "United States".to_string(),
        country_code: "US".to_string(),
        region: "California".to_string(),
        city: "Los Angeles".to_string(),
        timezone: "America/Los_Angeles".to_string(),
        isp: "Example ISP".to_string(),
    }
}

#[test]
fn test_location_format() {
    let location = example_location();

    assert_eq!(location.format_short(), "US, California, Los Angeles");
    assert_eq!(
        location.format_full(),
        "US, California, Los Angeles - Example ISP"
    );
}

#[test]
fn test_location_format_without_city() {
    let mut location = example_location();
    location.city = String::new();
    assert_eq!(location.format_short(), "US, California");
}

#[test]
fn test_validator_creation() {
    let validator = ProxyValidator::new(10);
    assert_eq!(validator.timeout_secs(), 10);
}

#[test]
fn test_failed_validation_carries_no_exit_data() {
    let result = ProxyValidationResult::invalid(
        "127.0.0.1:1080".to_string(),
        &ProxyError::ConnectTimeout,
    );
    assert!(!result.is_valid);
    assert!(result.exit_ip.is_none());
    assert!(result.location.is_none());
    assert!(result.latency_ms.is_none());
    let error = result.error.expect("a failed validation names its error");
    assert!(!error.is_empty());
    assert_eq!(error, "SOCKS5 connection failed: timed out");
}

#[test]
fn test_successful_validation_with_geo() {
    let result = ProxyValidationResult::valid_with_geo(
        "127.0.0.1:1080".to_string(),
        100,
        "1.2.3.4".to_string(),
        example_location(),
    );
    assert!(result.is_valid);
    assert!(result.error.is_none());
    assert_eq!(result.exit_ip, Some("1.2.3.4".to_string()));
    assert_eq!(result.latency_ms, Some(100));
}

#[test]
fn test_successful_validation_without_geo() {
    let result = ProxyValidationResult::valid_without_geo(
        "127.0.0.1:1080".to_string(),
        42,
        "Cannot parse IP API response".to_string(),
    );
    assert!(result.is_valid);
    assert!(result.exit_ip.is_none());
    assert!(result.location.is_none());
    assert_eq!(result.latency_ms, Some(42));
    assert_eq!(
        result.error.unwrap(),
        "Cannot get exit IP: Cannot parse IP API response"
    );
}

#[test]
fn test_health_check_result_healthy() {
    let result = HealthCheckResult::healthy(120);
    assert!(result.is_healthy);
    assert_eq!(result.latency_ms, Some(120));
    assert!(result.error.is_none());
}

#[test]
fn test_health_check_result_unhealthy() {
    let result = HealthCheckResult::unhealthy("Connection timeout".to_string());
    assert!(!result.is_healthy);
    assert!(result.latency_ms.is_none());
    assert_eq!(result.error, Some("Connection timeout".to_string()));
}

#[test]
fn test_health_probe_decisions() {
    assert!(after_socks5_probe(ProbeOutcome::Passed).is_none());
    let failed = after_socks5_probe(ProbeOutcome::Failed("connection refused".to_string()))
        .expect("a failed probe ends the check");
    assert!(!failed.is_healthy);
    assert_eq!(
        failed.error,
        Some("SOCKS5 connection failed: connection refused".to_string())
    );

    let healthy = after_http_probe(ProbeOutcome::Passed, 88);
    assert!(healthy.is_healthy);
    assert_eq!(healthy.latency_ms, Some(88));

    let unhealthy = after_http_probe(ProbeOutcome::Failed("status 502".to_string()), 88);
    assert!(!unhealthy.is_healthy);
    assert_eq!(unhealthy.error, Some("HTTP request failed: status 502".to_string()));
}
