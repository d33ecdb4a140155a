[package]
name = "rs_bff"
version = "0.1.0"
edition = "2021"
publish = false

[dependencies]
tonic = "=0.14.9"
serde_json = "=1.0.154"
serde = { version = "=1.0.229", features = ["derive"] }
serde_yaml = "=0.9.34"
axum = "=0.8.9"
tokio = { version = "=1.54.1", features = ["full"] }
log = "=0.4.35"
env_logger = "=0.11.11"
chrono = "=0.4.45"
thiserror = "=2.0.21"
autometrics = "=3.0.0"
