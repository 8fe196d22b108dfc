[package]
name = "mgw_generic"
version = "0.1.0"
edition = "2021"
publish = false

[dependencies]
anyhow = "=1.0.104"
chrono = "=0.4.45"
env_logger = "=0.11.11"
log = "=0.4.34"
serde = { version = "1", features = ["derive"] }
serde_yaml = "0.9"
tokio = { version = "=1.54.1", features = ["full"] }
tokio-modbus = { version = "=0.17.0", default-features = false, features = ["tcp"] }
