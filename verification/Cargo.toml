[package]
name = "twist_dl"
version = "0.1.0"
edition = "2021"
publish = false

[dependencies]
aes = "=0.6.0"
base64 = "=0.13.1"
block-modes = "=0.7.0"
chrono = { version = "=0.4.45", features = ["serde"] }
crossterm = { version = "=0.17.7", features = ["event-stream"] }
futures = "=0.3.34"
futures-timer = "=3.0.4"
fuzzy-matcher = "=0.3.4"
md-5 = "=0.9.1"
reqwest = { version = "=0.10.10", default-features = false, features = ["json", "rustls-tls"] }
serde = { version = "=1.0.229", features = ["derive"] }
serde_json = "=1.0.154"
tokio = { version = "=0.2.25", features = ["full"] }
tui = { version = "=0.9.5", default-features = false, features = ["crossterm"] }
url = "=2.5.8"
