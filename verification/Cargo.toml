[package]
name = "firmware_update"
version = "0.1.0"
edition = "2021"
publish = false

[dependencies]
base64 = "=0.22.1"
chrono = "=0.4.45"
serde = { version = "=1.0.229", features = ["derive"] }
serde_json = "=1.0.151"
sys-mount = { version = "=3.1.0", default-features = false }
tar = "=0.4.46"
ureq = "=2.12.1"
zmq = "=0.10.0"
zstd = "=0.14.0"
