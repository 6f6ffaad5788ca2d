[package]
name = "whisper_dictate"
version = "0.1.0"
edition = "2021"
publish = false

[dependencies]
anyhow = "1"
log = "0.4"
serde = { version = "1", features = ["derive"] }
serde_json = "1"
parking_lot = "0.12"
crossbeam-channel = "0.5"
libc = "0.2"
symphonia = { version = "0.5", features = ["all"] }
opus = "0.3"
cpal = "0.15"
whisper-rs = "*"
reqwest = { version = "0.12", default-features = false, features = ["blocking", "rustls-tls"] }
