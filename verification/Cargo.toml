[package]
name = "ngt_access"
version = "0.1.0"
edition = "2021"
publish = false

[dependencies]
anyhow = "=1.0.104"
base64 = "=0.22.1"
coap = "=0.29.0"
coap-lite = "=0.13.3"
env_logger = "=0.11.11"
jsonwebtoken = "=9.3.1"
log = { version = "=0.4.34", features = ["serde"] }
rcgen = "=0.11.3"
regex = "=1.13.1"
rustls = "=0.21.12"
rustls-pemfile = "=2.2.0"
serde = { version = "=1.0.229", features = ["derive"] }
serde_json = "=1.0.154"
time = "=0.3.55"
tokio = { version = "=1.54.1", features = ["full"] }
uuid = { version = "=1.29.0", features = ["serde", "v4"] }
webrtc-dtls = "=0.8.0"
webrtc-util = "=0.8.1"
