[package]
name = "nexus_core"
version = "0.4.1"
edition = "2021"
publish = false

[dependencies]
env_logger = "0.11"
futures-util = "0.3"
gilrs = "0.10"
log = "0.4"
serde = { version = "1", features = ["derive"] }
serde_json = "1"
tokio = { version = "1", features = ["macros", "net", "rt-multi-thread", "sync", "time"] }
tokio-tungstenite = "0.21"
