[package]
name = "aivyx_server"
version = "0.1.0"
edition = "2021"
publish = false

[dependencies]
sha2 = "0.10"
hmac = "0.12"
subtle = "2"
hex = "0.4"
base64 = "0.22"
uuid = { version = "1", features = ["v4"] }
chrono = "0.4"
croner = "2"
serde = { version = "1", features = ["derive"] }
serde_json = "1"
axum = "0.8"
tokio = { version = "1", features = ["full"] }
tower = "0.5"
tracing = "0.1"
tar = "0.4"
flate2 = "1"
governor = "*"
rand = "0.8"
