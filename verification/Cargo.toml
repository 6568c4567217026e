[package]
name = "open_kanojyo"
version = "0.1.0"
edition = "2021"
publish = false

[dependencies]
anyhow = "=1.0.104"
crossterm = "=0.28.1"
dotenvy = "=0.15.7"
futures-util = { version = "=0.3.34", default-features = false, features = ["std"] }
ratatui = "=0.29.0"
rig-agent = "=0.42.0"
rig-core = "=0.42.0"
schemars = "=1.2.3"
serde = { version = "=1.0.229", features = ["derive"] }
serde_json = "=1.0.154"
thiserror = "=2.0.21"
tokio = { version = "=1.54.1", features = ["macros", "rt-multi-thread", "sync", "process", "io-util", "time"] }
unicode-width = "=0.2.0"
