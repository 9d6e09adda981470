[package]
name = "hearye"
version = "0.1.0"
edition = "2021"
publish = false

[dependencies]
hound = "=3.5.1"
keyring = { version = "=3.6.3", features = ["apple-native"] }
anyhow = "=1.0.104"
log = "=0.4.35"
parking_lot = "=0.12.5"
serde = { version = "=1.0.229", features = ["derive"] }
serde_json = "=1.0.154"
reqwest = { version = "=0.12.28", default-features = false, features = ["rustls-tls", "multipart", "json"] }
cpal = "=0.15.3"
whisper-rs = "=0.16.0"
core-foundation = "0.10"
core-graphics = "0.24"
objc2 = "0.5"
objc2-foundation = "0.2"
