//! The configuration merger, run over Clash configuration text.

use clash_chain_patcher::bridge::merger_bridge::MergerBridge;

fn test_config() -> String {
    let mut text = String::new();
    text.push_str("proxies:\n");
    text.push_str("  - name: \"HK-01\"\n    type: ss\n    server: example.com\n    port: 443\n");
    text.push_str("  - name: \"JP-01\"\n    type: ss\n    server: example.jp\n    port: 443\n");
    text.push_str("proxy-groups:\n");
    text.push_str("  - name: \"Proxy\"\n    type: select\n    proxies:\n      - \"HK-01\"\n      - \"JP-01\"\n");
    text.push_str("  - name: \"Auto\"\n    type: url-test\n    proxies:\n      - \"HK-01\"\n      - \"JP-01\"\n");
    text
}

#[test]
fn test_merge_creates_chain_relays() {
    let bridge = MergerBridge::new();
    let (output, result) = bridge.merge(&test_config()).expect("the merge succeeds");

    assert!(result.proxy_added);
    assert_eq!(result.chains_created, 2); // one chain per proxy
    assert_eq!(result.groups_updated, 1); // only the main select group

    let config: serde_yaml::Value = serde_yaml::from_str(&output).unwrap();

    let proxies = config["proxies"].as_sequence().unwrap();
    assert_eq!(proxies.len(), 3); // the two nodes plus the local proxy

    let groups = config["proxy-groups"].as_sequence().unwrap();
    let group_names: Vec<&str> = groups.iter().filter_map(|g| g["name"].as_str()).collect();
    assert!(group_names.contains(&"HK-01-Chain"));
    assert!(group_names.contains(&"JP-01-Chain"));
    assert!(group_names.contains(&"Chain-Selector"));
    assert!(group_names.contains(&"Chain-Auto"));

    // The relay routes first through the node, then through the local proxy.
    for group in groups {
        if group["name"].as_str() == Some("HK-01-Chain") {
            assert_eq!(group["type"].as_str().unwrap(), "relay");
            let chain = group["proxies"].as_sequence().unwrap();
            assert_eq!(chain[0].as_str().unwrap(), "HK-01");
            assert_eq!(chain[1].as_str().unwrap(), "Local-Chain-Proxy");
        }
        if group["name"].as_str() == Some("Proxy") {
            let entries: Vec<&str> =
                group["proxies"].as_sequence().unwrap().iter().filter_map(|p| p.as_str()).collect();
            assert_eq!(entries[0], "Chain-Selector");
            assert_eq!(entries[1], "Chain-Auto");
        }
    }
}

#[test]
fn test_merge_idempotent() {
    let bridge = MergerBridge::new();

    let (first_output, first) = bridge.merge(&test_config()).unwrap();
    assert!(first.proxy_added);
    assert_eq!(first.chains_created, 2);

    let (_second_output, second) = bridge.merge(&first_output).unwrap();
    assert!(!second.proxy_added);
    assert_eq!(second.chains_created, 0);
    assert_eq!(second.groups_updated, 0);
}

#[test]
fn test_merge_rejects_non_mapping() {
    let bridge = MergerBridge::new();
    assert!(bridge.merge("- just\n- a\n- list\n").is_err());
    assert!(bridge.merge("{ not: [valid").is_err());
}

#[test]
fn test_merge_updates_existing_node() {
    let bridge = MergerBridge::new();
    let mut text = String::new();
    text.push_str("proxies:\n");
    text.push_str("  - name: \"HK-01\"\n    type: ss\n    server: example.com\n    port: 443\n");
    text.push_str("  - name: \"Local-Chain-Proxy\"\n    type: socks5\n    server: 10.0.0.1\n    port: 9\n");
    let (output, result) = bridge.merge(&text).unwrap();
    assert!(!result.proxy_added);
    let config: serde_yaml::Value = serde_yaml::from_str(&output).unwrap();
    let proxies = config["proxies"].as_sequence().unwrap();
    assert_eq!(proxies.len(), 2);
    for node in proxies {
        if node["name"].as_str() == Some("Local-Chain-Proxy") {
            assert_eq!(node["server"].as_str().unwrap(), "127.0.0.1");
            assert_eq!(node["port"].as_i64().unwrap(), 10808);
        }
    }
}
