[package]
name = "xscape"
version = "0.1.0"
edition = "2021"
publish = false

[dependencies]
flate2 = "=1.1.10"
tar = "=0.4.46"
sha2 = "=0.11.0"
chrono = "=0.4.45"
walkdir = "=2.5.0"
axum = { version = "=0.8.9", features = ["ws", "multipart"] }
tokio = { version = "=1.53.2", features = ["full"] }
serde = { version = "=1.0.229", features = ["derive"] }
serde_json = "=1.0.151"
futures-util = "=0.3.34"
