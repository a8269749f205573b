[package]
name = "zach-agent"
version = "0.1.0"
edition = "2021"
publish = false

[dependencies]
serde_json = "1"
serde = { version = "1", features = ["derive"] }
tokio = { version = "1", features = ["sync", "rt", "rt-multi-thread", "macros", "time"] }
tokio-util = "0.7"
futures = "0.3"
async-trait = "0.1"
schemars = "0.8"
thiserror = "1"
