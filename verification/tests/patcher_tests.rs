//! The patcher's proxy-string parser, keyword filter, and data types.

use clash_chain_patcher::merger::clash_merger::MergerConfig;
use clash_chain_patcher::patcher::{
    apply_patch, clean_proxy_name, filter_proxies_by_keywords, parse_proxy_string, preview_patch,
    PatchOptions,
};
use clash_chain_patcher::proxy::config::UpstreamConfig;

#[test]
fn test_parse_proxy_string_format1() {
    let result = parse_proxy_string("user:pass@host.com:1080");
    assert!(result.is_some());
    let proxy = result.unwrap();
    assert_eq!(proxy.host, "host.com");
    assert_eq!(proxy.port, 1080);
    assert_eq!(proxy.username, Some("user".to_string()));
    assert_eq!(proxy.password, Some("pass".to_string()));
}

#[test]
fn test_parse_proxy_string_format2() {
    let result = parse_proxy_string("64.32.179.160:60088:ZUvGbvjcI52P:0UxQRzGfZoup");
    assert!(result.is_some());
    let proxy = result.unwrap();
    assert_eq!(proxy.host, "64.32.179.160");
    assert_eq!(proxy.port, 60088);
    assert_eq!(proxy.username, Some("ZUvGbvjcI52P".to_string()));
    assert_eq!(proxy.password, Some("0UxQRzGfZoup".to_string()));
}

#[test]
fn test_parse_proxy_string_rejects_junk() {
    assert!(parse_proxy_string("").is_none());
    assert!(parse_proxy_string("   ").is_none());
    assert!(parse_proxy_string("hostonly").is_none());
    assert!(parse_proxy_string("host:notaport").is_none());
    assert!(parse_proxy_string("host:65536").is_none());
    assert!(parse_proxy_string("a@b@c").is_none());
}

#[test]
fn test_parse_proxy_string_scheme_and_name() {
    let proxy = parse_proxy_string("socks5://host.com:1080").unwrap();
    assert_eq!(proxy.name, "SOCKS5-FixedIP");
    assert_eq!(proxy.host, "host.com");
    assert_eq!(proxy.username, None);
    assert_eq!(proxy.password, None);
}

#[test]
fn test_parse_format1() {
    let config = UpstreamConfig::from_proxy_string("user:pass@host.com:1080").unwrap();
    assert_eq!(config.host, "host.com");
    assert_eq!(config.port, 1080);
    assert_eq!(config.username, Some("user".to_string()));
    assert_eq!(config.password, Some("pass".to_string()));
}

#[test]
fn test_parse_format2() {
    let config = UpstreamConfig::from_proxy_string("64.32.179.160:60088:user:pass").unwrap();
    assert_eq!(config.host, "64.32.179.160");
    assert_eq!(config.port, 60088);
    assert_eq!(config.username, Some("user".to_string()));
    assert_eq!(config.password, Some("pass".to_string()));
}

#[test]
fn test_parse_no_auth() {
    let config = UpstreamConfig::from_proxy_string("host.com:1080").unwrap();
    assert_eq!(config.host, "host.com");
    assert_eq!(config.port, 1080);
    assert_eq!(config.username, None);
    assert_eq!(config.password, None);
}

#[test]
fn test_parse_plus_port_as_std_does() {
    // `str::parse::<u16>` accepts a leading plus sign; the parser follows.
    let config = UpstreamConfig::from_proxy_string("host.com:+1080").unwrap();
    assert_eq!(config.port, 1080);
}

#[test]
fn test_filter_keywords_case_insensitive() {
    let names = vec![
        "HK Node 01".to_string(),
        "JP Node 01".to_string(),
        "US Node 01".to_string(),
    ];
    let keywords = vec!["hk".to_string(), "us".to_string()];
    let kept = filter_proxies_by_keywords(&names, &keywords);
    assert_eq!(kept, vec!["HK Node 01".to_string(), "US Node 01".to_string()]);

    let none: Vec<String> = Vec::new();
    assert_eq!(filter_proxies_by_keywords(&names, &none), names);
}

#[test]
fn test_patch_options_default() {
    let options = PatchOptions::default();
    assert!(options.filter_keywords.is_empty());
}

#[test]
fn test_merger_config_default() {
    let config = MergerConfig::default();
    assert_eq!(config.proxy_name, "Local-Chain-Proxy");
    assert_eq!(config.proxy_host, "127.0.0.1");
    assert_eq!(config.proxy_port, 10808);
    assert!(config.create_backup);
    assert!(config.insert_at_beginning);
    assert_eq!(config.chain_suffix, "-Chain");
}

#[test]
fn test_clean_proxy_name() {
    assert_eq!(clean_proxy_name("[US] Node (Test)"), "USNodeTest");
    assert_eq!(clean_proxy_name("\u{9999}\u{6e2f}\u{8282}\u{70b9}"), "\u{9999}\u{6e2f}\u{8282}\u{70b9}");
}

fn sample_config() -> String {
    let mut text = String::new();
    text.push_str("proxies:\n");
    text.push_str("  - name: \"HK-01\"\n    type: ss\n    server: example.com\n    port: 443\n");
    text.push_str("  - name: \"JP-01\"\n    type: ss\n    server: example.jp\n    port: 443\n");
    text.push_str("  - name: \"Emby Node\"\n    type: ss\n    server: example.tv\n    port: 443\n");
    text.push_str("proxy-groups:\n");
    text.push_str("  - name: \"Select\"\n    type: select\n    proxies:\n      - \"HK-01\"\n      - \"JP-01\"\n");
    text.push_str("  - name: \"Chain-Stale\"\n    type: relay\n    proxies:\n      - \"HK-01\"\n");
    text
}

#[test]
fn test_preview_patch_reports_chains() {
    let proxy = parse_proxy_string("1.2.3.4:1080:user:pass").unwrap();
    let options = PatchOptions::default();
    let result = preview_patch(&sample_config(), &proxy, &options);
    assert!(result.success);
    assert!(result.output.is_none());
    assert_eq!(
        result.relay_names,
        vec!["Chain-HK-01".to_string(), "Chain-JP-01".to_string()]
    );
    assert_eq!(result.logs.len(), 3);
    assert_eq!(result.logs[2], "SOCKS5 proxy: 1.2.3.4:1080");
}

#[test]
fn test_preview_patch_rejects_bad_yaml() {
    let proxy = parse_proxy_string("1.2.3.4:1080").unwrap();
    let options = PatchOptions::default();
    let result = preview_patch("{ not: [valid", &proxy, &options);
    assert!(!result.success);
    assert!(result.logs[0].starts_with("[ERROR] YAML parsing failed: "));
}

#[test]
fn test_apply_patch_rewrites_config() {
    let proxy = parse_proxy_string("1.2.3.4:1080:user:pass").unwrap();
    let options = PatchOptions::default();
    let result = apply_patch(&sample_config(), &proxy, &options);
    assert!(result.success);
    let output = result.output.expect("a successful patch produces output");
    assert_eq!(
        result.relay_names,
        vec!["Chain-HK-01".to_string(), "Chain-JP-01".to_string()]
    );
    assert!(output.contains("SOCKS5-FixedIP"));
    assert!(output.contains("Chain-HK-01"));
    assert!(output.contains("Chain-Selector"));
    // The stale chain group is dropped, the other groups survive.
    assert!(!output.contains("Chain-Stale"));
    assert!(output.contains("Select"));
    assert!(output.contains("Emby Node"));
}

#[test]
fn test_apply_patch_is_stable_on_second_run() {
    let proxy = parse_proxy_string("1.2.3.4:1080:user:pass").unwrap();
    let options = PatchOptions::default();
    let first = apply_patch(&sample_config(), &proxy, &options);
    let first_output = first.output.unwrap();
    let second = apply_patch(&first_output, &proxy, &options);
    assert!(second.success);
    // The node already exists, so it is not added again.
    assert!(second.logs.iter().any(|l| l.starts_with("[=] SOCKS5 node already exists")));
    assert_eq!(second.relay_names, first.relay_names);
}

#[test]
fn test_apply_patch_with_keyword_filter() {
    let proxy = parse_proxy_string("1.2.3.4:1080").unwrap();
    let options = PatchOptions {
        filter_keywords: vec!["hk".to_string()],
    };
    let result = apply_patch(&sample_config(), &proxy, &options);
    assert!(result.success);
    assert_eq!(result.relay_names, vec!["Chain-HK-01".to_string()]);
}

#[test]
fn test_apply_patch_without_usable_nodes() {
    let proxy = parse_proxy_string("1.2.3.4:1080").unwrap();
    let options = PatchOptions {
        filter_keywords: vec!["nomatch".to_string()],
    };
    let result = apply_patch(&sample_config(), &proxy, &options);
    assert!(!result.success);
    assert!(result.output.is_none());
    assert_eq!(result.logs, vec!["[ERROR] No available nodes for chain proxy".to_string()]);
}
