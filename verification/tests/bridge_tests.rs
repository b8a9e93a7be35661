//! The bridge layer: builders, configuration plumbing, and errors.

use clash_chain_patcher::bridge::health_bridge::HealthBridgeBuilder;
use clash_chain_patcher::bridge::merger_bridge::{MergerBridge, MergerBridgeBuilder};
use clash_chain_patcher::bridge::BridgeError;
use clash_chain_patcher::merger::clash_merger::MergerConfig;

#[test]
fn test_health_bridge_builder() {
    let bridge = HealthBridgeBuilder::new()
        .timeout(15)
        .test_url("http://www.google.com/generate_204")
        .failure_threshold(5)
        .check_interval(120)
        .build();

    assert!(bridge.is_ok());
}

#[test]
fn test_health_bridge_builder_values() {
    let config = HealthBridgeBuilder::new()
        .timeout(15)
        .test_url("http://www.google.com/generate_204")
        .failure_threshold(5)
        .check_interval(120)
        .build()
        .unwrap();
    assert_eq!(config.timeout_secs, 15);
    assert_eq!(config.test_url, "http://www.google.com/generate_204");
    assert_eq!(config.failure_threshold, 5);
    assert_eq!(config.check_interval_secs, 120);
}

#[test]
fn test_merger_bridge_creation() {
    let bridge = MergerBridge::new();
    assert_eq!(bridge.config().proxy_name, "Local-Chain-Proxy");
    assert_eq!(bridge.config().proxy_port, 10808);
}

#[test]
fn test_merger_bridge_with_config() {
    let config = MergerConfig {
        proxy_name: "Custom-Proxy".to_string(),
        proxy_host: "127.0.0.1".to_string(),
        proxy_port: 9999,
        proxy_username: None,
        proxy_password: None,
        create_backup: false,
        insert_at_beginning: false,
        chain_suffix: "-Chain".to_string(),
    };

    let bridge = MergerBridge::with_config(config);
    assert_eq!(bridge.config().proxy_name, "Custom-Proxy");
    assert_eq!(bridge.config().proxy_port, 9999);
    assert!(!bridge.config().create_backup);
}

#[test]
fn test_merger_bridge_builder() {
    let bridge = MergerBridgeBuilder::new()
        .proxy_name("Custom-Chain")
        .proxy_host("192.168.1.100")
        .proxy_port(8888)
        .create_backup(false)
        .insert_at_beginning(false)
        .build();

    assert_eq!(bridge.config().proxy_name, "Custom-Chain");
    assert_eq!(bridge.config().proxy_host, "192.168.1.100");
    assert_eq!(bridge.config().proxy_port, 8888);
    assert!(!bridge.config().create_backup);
    assert!(!bridge.config().insert_at_beginning);
}

#[test]
fn test_update_config() {
    let mut bridge = MergerBridge::new();
    assert_eq!(bridge.config().proxy_port, 10808);

    let new_config = MergerConfig {
        proxy_name: "Updated-Proxy".to_string(),
        proxy_host: "127.0.0.1".to_string(),
        proxy_port: 7777,
        proxy_username: Some("user".to_string()),
        proxy_password: Some("pass".to_string()),
        create_backup: true,
        insert_at_beginning: true,
        chain_suffix: "-Chain".to_string(),
    };

    bridge.update_config(new_config);
    assert_eq!(bridge.config().proxy_name, "Updated-Proxy");
    assert_eq!(bridge.config().proxy_port, 7777);
}

#[test]
fn test_bridge_error_messages() {
    assert_eq!(
        BridgeError::Merger("bad yaml".to_string()).message(),
        "Configuration merger error: bad yaml"
    );
    assert_eq!(
        BridgeError::Runtime("no threads".to_string()).message(),
        "Runtime error: no threads"
    );
    assert!(!BridgeError::Config(String::new()).message().is_empty());
    assert!(!BridgeError::Health(String::new()).message().is_empty());
    assert!(!BridgeError::Watcher(String::new()).message().is_empty());
    assert!(!BridgeError::Io(String::new()).message().is_empty());
}
