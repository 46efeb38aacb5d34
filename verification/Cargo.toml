[package]
name = "spoolbuddy"
version = "0.1.0"
edition = "2021"
publish = false

[dependencies]
serde = { version = "1", features = ["derive"] }
serde_json = "1"
tokio = { version = "1", features = ["full"] }
rumqttc = "0.24"
rustls = "0.22"
socket2 = "0.5"
tracing = "0.1"
