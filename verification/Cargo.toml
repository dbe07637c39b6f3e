[package]
name = "bastionclaw"
version = "0.1.0"
edition = "2021"
publish = false

[dependencies]
axum = "0.8"
base64 = "0.22"
chrono = "0.4"
futures = "0.3"
hex = "0.4"
k256 = { version = "0.13", features = ["ecdsa"] }
rand = "0.8"
reqwest = { version = "0.12", default-features = false, features = ["json"] }
serde = { version = "1", features = ["derive"] }
serde_json = "1"
sha2 = "0.10"
thiserror = "2"
tokio = { version = "1", features = ["macros", "rt-multi-thread", "sync", "time", "net"] }
tokio-stream = { version = "0.1", features = ["sync"] }
tracing = "0.1"
url = "2"
uuid = { version = "1", features = ["v4"] }
