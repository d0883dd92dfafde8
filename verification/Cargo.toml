[package]
name = "zk_browser"
version = "0.1.0"
edition = "2021"
publish = false

[dependencies]
serde_json = { version = "=1.0.151", features = ["float_roundtrip"] }
serde = { version = "=1.0.229", features = ["derive"] }
clap = { version = "=4.6.7", features = ["derive"] }
crossterm = "=0.29.0"
ratatui = "=0.30.2"
tokio = { version = "=1.53.2", features = ["rt-multi-thread", "macros", "time"] }
thiserror = "=2.0.21"
zookeeper-async = "=5.0.0"
