[package]
name = "mavlink_to_kafka"
version = "0.1.0"
edition = "2021"
publish = false

[dependencies]
anyhow = "1"
figment = { version = "*", features = ["toml", "env"] }
mavlink = { version = "*", features = ["ardupilotmega", "serde", "std", "tcp", "udp"] }
rdkafka = "*"
serde = { version = "1", features = ["derive"] }
serde_json = "1"
tokio = { version = "1", features = ["full"] }
tokio-util = "*"
tracing = "*"
tracing-subscriber = { version = "*", features = ["env-filter"] }
