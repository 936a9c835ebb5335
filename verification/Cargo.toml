[package]
name = "rollup_boost"
version = "0.1.0"
edition = "2021"
publish = false

[dependencies]
libp2p = { version = "0.56", features = ["tokio", "tcp", "noise", "yamux", "mdns", "identify", "ping", "autonat", "macros", "ed25519"] }
libp2p-stream = "0.4.0-alpha"
multiaddr = "0.18"
tokio = { version = "1", features = ["full"] }
tokio-util = { version = "0.7", features = ["codec", "compat"] }
futures = "0.3"
eyre = "0.6"
tracing = "0.1"
clap = { version = "4", features = ["derive", "env"] }
serde = { version = "1", features = ["derive"] }
serde_json = "1"
