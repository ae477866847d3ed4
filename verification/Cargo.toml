[package]
name = "omni_event_registry"
version = "0.1.0"
edition = "2021"
publish = false

[dependencies]
dashmap = "=6.2.1"
serde_json = "=1.0.151"
chrono = "=0.4.45"
libloading = "=0.9.0"
tokio = { version = "=1.53.2", features = ["full"] }
