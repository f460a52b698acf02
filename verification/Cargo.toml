[package]
name = "pico4u"
version = "0.1.0"
edition = "2021"
publish = false

[dependencies]
chrono = { version = "=0.4.45", default-features = false, features = ["clock", "std"] }
tokio = { version = "=1.54.1", features = ["net", "io-util", "time", "rt", "sync"] }
tauri = { version = "=2.12.5", default-features = false }
serde = { version = "=1.0.229", features = ["derive"] }
serde_json = "=1.0.154"
