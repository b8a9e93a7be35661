//! Upstream proxy records, health transitions, and the configuration
//! manager's CRUD operations.

use clash_chain_patcher::config::manager::{AppConfig, ConfigManager};
use clash_chain_patcher::health::checker::HealthCheckConfig;
use clash_chain_patcher::config::upstream::{HealthStatus, ProxyHealth, UpstreamProxy};
use clash_chain_patcher::proxy::config::UpstreamConfig;

fn create_test_config_manager() -> ConfigManager {
    ConfigManager::with_config("config.json".to_string(), AppConfig::default())
}

#[test]
fn test_upstream_proxy_creation() {
    let config = UpstreamConfig {
        host: "127.0.0.1".to_string(),
        port: 1080,
        username: Some("user".to_string()),
        password: Some("pass".to_string()),
    };

    let proxy = UpstreamProxy::new("Test Proxy".to_string(), config);

    assert_eq!(proxy.name, "Test Proxy");
    assert!(proxy.enabled);
    assert_eq!(proxy.health.status, HealthStatus::Unknown);
}

#[test]
fn test_upstream_proxy_from_string() {
    let proxy = UpstreamProxy::from_proxy_string(
        "HK Proxy".to_string(),
        "64.32.179.160:60088:user:pass",
    )
    .unwrap();

    assert_eq!(proxy.name, "HK Proxy");
    assert_eq!(proxy.config.host, "64.32.179.160");
    assert_eq!(proxy.config.port, 60088);
}

#[test]
fn test_proxy_ids_are_uuid_shaped() {
    let proxy = UpstreamProxy::new("A".to_string(), UpstreamConfig::default());
    assert_eq!(proxy.id.len(), 36);
}

#[test]
fn test_health_status_transitions() {
    let mut health = ProxyHealth::default();

    // Initially unknown
    assert_eq!(health.status, HealthStatus::Unknown);
    assert!(!health.is_healthy());

    // Mark as checking
    health.mark_checking();
    assert_eq!(health.status, HealthStatus::Checking);

    // Mark as healthy
    health.mark_healthy(120);
    assert_eq!(health.status, HealthStatus::Healthy);
    assert_eq!(health.latency_ms, Some(120));
    assert_eq!(health.consecutive_failures, 0);
    assert!(health.is_healthy());

    // Mark as unhealthy
    health.mark_unhealthy("Connection timeout".to_string());
    assert_eq!(health.status, HealthStatus::Unhealthy);
    assert_eq!(health.consecutive_failures, 1);
    assert!(!health.is_healthy());

    // Second failure
    health.mark_unhealthy("Still failing".to_string());
    assert_eq!(health.consecutive_failures, 2);
}

#[test]
fn test_mark_healthy_with_details() {
    let mut health = ProxyHealth::default();
    health.mark_healthy_with_details(
        80,
        Some("1.2.3.4".to_string()),
        Some("US, California".to_string()),
        Some("US".to_string()),
    );
    assert!(health.is_healthy());
    assert_eq!(health.exit_ip, Some("1.2.3.4".to_string()));
    assert_eq!(health.location, Some("US, California".to_string()));
    assert_eq!(health.country_code, Some("US".to_string()));
    assert!(health.last_check.is_some());
}

#[test]
fn test_add_upstream() {
    let mut manager = create_test_config_manager();

    let config = UpstreamConfig {
        host: "127.0.0.1".to_string(),
        port: 1080,
        username: Some("user".to_string()),
        password: Some("pass".to_string()),
    };

    let proxy = UpstreamProxy::new("Test Proxy".to_string(), config);
    let proxy_id = proxy.id.clone();

    manager.add_upstream(proxy).unwrap();

    assert_eq!(manager.list_upstreams().len(), 1);
    assert!(manager.get_upstream(&proxy_id).is_some());
}

#[test]
fn test_add_duplicate_id_is_refused() {
    let mut manager = create_test_config_manager();
    let proxy = UpstreamProxy::new("A".to_string(), UpstreamConfig::default());
    let copy = UpstreamProxy {
        id: proxy.id.clone(),
        name: "B".to_string(),
        enabled: true,
        config: UpstreamConfig::default(),
        health: ProxyHealth::default(),
    };
    manager.add_upstream(proxy).unwrap();
    assert!(manager.add_upstream(copy).is_err());
    assert_eq!(manager.list_upstreams().len(), 1);
}

#[test]
fn manager_test_remove_upstream() {
    let mut manager = create_test_config_manager();

    let config = UpstreamConfig {
        host: "127.0.0.1".to_string(),
        port: 1080,
        username: None,
        password: None,
    };

    let proxy = UpstreamProxy::new("Test".to_string(), config);
    let proxy_id = proxy.id.clone();

    manager.add_upstream(proxy).unwrap();
    assert_eq!(manager.list_upstreams().len(), 1);

    manager.remove_upstream(&proxy_id).unwrap();
    assert_eq!(manager.list_upstreams().len(), 0);
    assert!(manager.remove_upstream(&proxy_id).is_err());
}

#[test]
fn manager_test_update_upstream() {
    let mut manager = create_test_config_manager();

    let config = UpstreamConfig {
        host: "127.0.0.1".to_string(),
        port: 1080,
        username: None,
        password: None,
    };

    let proxy = UpstreamProxy::new("Old Name".to_string(), config);
    let proxy_id = proxy.id.clone();

    manager.add_upstream(proxy).unwrap();

    let current = manager.get_upstream(&proxy_id).unwrap();
    let updated = UpstreamProxy {
        id: current.id.clone(),
        name: "New Name".to_string(),
        enabled: current.enabled,
        config: current.config.clone(),
        health: current.health.clone(),
    };
    manager.update_upstream(updated).unwrap();

    let fetched = manager.get_upstream(&proxy_id).unwrap();
    assert_eq!(fetched.name, "New Name");
}

#[test]
fn test_list_enabled_upstreams() {
    let mut manager = create_test_config_manager();

    // Add enabled proxy
    let config1 = UpstreamConfig {
        host: "127.0.0.1".to_string(),
        port: 1080,
        username: None,
        password: None,
    };
    let proxy1 = UpstreamProxy::new("Enabled".to_string(), config1);
    manager.add_upstream(proxy1).unwrap();

    // Add disabled proxy
    let config2 = UpstreamConfig {
        host: "127.0.0.1".to_string(),
        port: 1081,
        username: None,
        password: None,
    };
    let mut proxy2 = UpstreamProxy::new("Disabled".to_string(), config2);
    proxy2.enabled = false;
    manager.add_upstream(proxy2).unwrap();

    let enabled = manager.list_enabled_upstreams();
    assert_eq!(enabled.len(), 1);
    assert_eq!(enabled[0].name, "Enabled");
}

#[test]
fn test_set_upstream_enabled() {
    let mut manager = create_test_config_manager();
    let proxy = UpstreamProxy::new("Toggle".to_string(), UpstreamConfig::default());
    let id = proxy.id.clone();
    manager.add_upstream(proxy).unwrap();

    manager.set_upstream_enabled(&id, false).unwrap();
    assert!(!manager.get_upstream(&id).unwrap().enabled);
    manager.set_upstream_enabled(&id, true).unwrap();
    assert!(manager.get_upstream(&id).unwrap().enabled);
    assert!(manager.set_upstream_enabled("missing", true).is_err());
}

#[test]
fn test_health_check_config_default() {
    let config = HealthCheckConfig::default();
    assert_eq!(config.timeout_secs, 10);
    assert_eq!(config.test_url, "http://www.gstatic.com/generate_204");
    assert_eq!(config.failure_threshold, 3);
    assert_eq!(config.check_interval_secs, 300);
}

#[test]
fn test_app_config_default() {
    let config = AppConfig::default();
    assert!(config.upstream_proxies.is_empty());
    assert!(config.clash.config_path.is_none());
    assert!(config.clash.auto_merge);
    assert!(!config.clash.auto_monitor);
    assert_eq!(config.local_proxy.name, "Local-Chain-Proxy");
    assert_eq!(config.local_proxy.listen, "127.0.0.1:10808");
}
