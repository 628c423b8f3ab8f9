[package]
name = "remote_session"
version = "0.1.0"
edition = "2021"
publish = false

[dependencies]
chrono = "0.4"
sha2 = "0.10"
tokio = { version = "1", features = ["full"] }
axum = "0.8"
tokio-tungstenite = "*"
futures-util = "0.3"
local-ip-address = "*"
qrcode = "*"
dirs = "*"

[dev-dependencies]
serde_json = "1"
