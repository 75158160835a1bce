[package]
name = "companion-updater"
version = "0.1.0"
edition = "2021"
publish = false

[dependencies]
serde = { version = "=1.0.229", features = ["derive"] }
serde_json = "=1.0.154"
axum = "=0.7.9"
tokio = { version = "=1.54.1", features = ["full"] }
tokio-stream = "=0.1.19"
futures = "=0.3.34"
reqwest = { version = "=0.12.28", default-features = false, features = ["json", "rustls-tls"] }
chrono = "=0.4.45"
tracing = "=0.1.44"
tracing-subscriber = { version = "=0.3.23", features = ["env-filter"] }
mime_guess = "=2.0.5"
tokio-tungstenite = { version = "=0.24.0", default-features = false, features = ["connect"] }
sha1 = "=0.10.7"
base64 = "=0.22.1"
