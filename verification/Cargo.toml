[package]
name = "oauth_capture"
version = "0.1.0"
edition = "2021"
publish = false

[dependencies]
tauri = { version = "2", default-features = false }
tokio = { version = "1", features = ["net", "io-util"] }
