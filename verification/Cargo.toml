[package]
name = "wgsocks"
version = "0.1.0"
edition = "2021"
publish = false

[dependencies]
base64 = "=0.13.1"
boringtun = { version = "=0.5.3", default-features = false }
rand = "=0.8.8"
serde = { version = "=1.0.229", features = ["derive"] }
serde_json = "=1.0.154"
signal-hook = "=0.3.18"
smoltcp = "=0.8.2"
tokio = { version = "=1.54.1", features = ["full"] }
x25519-dalek = { version = "=2.0.0-rc.3", features = ["static_secrets"] }
