//! The watcher's configuration and existence check.

use clash_chain_patcher::watcher::clash_watcher::{ClashConfigWatcher, WatcherConfig, WatcherEvent};

#[test]
fn test_watcher_config_default() {
    let config = WatcherConfig::default();
    assert_eq!(config.debounce_delay_ms, 2000);
    assert!(config.continuous);
}

#[test]
fn test_watcher_creation_nonexistent_file() {
    let result = ClashConfigWatcher::new("/nonexistent/file.yaml");
    assert!(result.is_err());
}

#[test]
fn test_watcher_creation_error_names_the_path() {
    let error = match ClashConfigWatcher::new("/nonexistent/file.yaml") {
        Err(e) => e,
        Ok(_) => panic!("a missing file must be refused"),
    };
    assert_eq!(error, "Config file does not exist: /nonexistent/file.yaml");
}

#[test]
fn test_watcher_with_config_nonexistent_file() {
    let config = WatcherConfig {
        debounce_delay_ms: 5000,
        continuous: false,
    };
    assert!(ClashConfigWatcher::with_config("/nonexistent/file.yaml", config).is_err());
}

#[test]
fn test_watcher_event_shapes() {
    let modified = WatcherEvent::ConfigModified("a.yaml".to_string());
    let created = WatcherEvent::ConfigCreated("a.yaml".to_string());
    let failed = WatcherEvent::Error("gone".to_string());
    assert!(matches!(modified, WatcherEvent::ConfigModified(_)));
    assert!(matches!(created, WatcherEvent::ConfigCreated(_)));
    assert!(matches!(failed, WatcherEvent::Error(_)));
}
