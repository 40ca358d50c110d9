[package]
name = "triponics"
version = "0.1.0"
edition = "2021"
publish = false

[dependencies]
time = { version = "0.3", features = ["macros", "formatting", "parsing", "local-offset"] }
serde = { version = "1", features = ["derive"] }
serde_json = "1"
serde_with = "3"
bevy_app = { version = "0.14", default-features = false }
bevy_ecs = { version = "0.14", default-features = false }
bevy_internal = { version = "0.14", default-features = false }
bevy-tokio-tasks = "0.14"
tokio = { version = "1", features = ["full"] }
paho-mqtt = { version = "0.12", default-features = false, features = ["bundled"] }
rusqlite = { version = "0.32", features = ["bundled"] }
postcard = { version = "1", features = ["alloc"] }
rppal = "0.19"
tokio-modbus = { version = "0.14", default-features = false, features = ["rtu"] }
tokio-serial = "5.4"
tracing = "0.1"
tracing-subscriber = { version = "0.3", features = ["env-filter", "time", "local-time"] }
clap = { version = "4", features = ["derive"] }
anyhow = "1"
thiserror = "1"
error-stack = "0.5"
crossbeam-channel = "0.5"
futures = "0.3"
