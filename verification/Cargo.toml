[package]
name = "nemo_relay"
version = "0.1.0"
edition = "2021"
publish = false

[dependencies]
serde_json = "=1.0.154"
log = { version = "=0.4.35", features = ["std", "kv"] }
spdlog-rs = { version = "=0.5.3", features = ["log", "multi-thread"] }
uuid = { version = "=1.29.1", features = ["v7"] }
