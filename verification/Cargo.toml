[package]
name = "clash_chain_patcher"
version = "0.1.0"
edition = "2021"
publish = false

[dependencies]
anyhow = "*"
dirs = "*"
fast-socks5 = "*"
serde = { version = "*", features = ["derive"] }
serde_json = "*"
serde_yaml = "*"
tokio = { version = "*", features = ["rt-multi-thread", "net", "io-util", "time", "sync", "macros"] }
uuid = { version = "*", features = ["v4"] }
