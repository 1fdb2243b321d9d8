[package]
name = "open_scribe"
version = "0.1.0"
edition = "2021"
publish = false

[dependencies]
sha2 = "=0.10.9"
base64 = "0.22"
uuid = { version = "=1.29.0", features = ["v7"] }
serde = { version = "=1.0.229", features = ["derive"] }
serde_json = "=1.0.154"
rusqlite = { version = "=0.41.1", features = ["bundled"] }
rustix = { version = "=1.1.6", features = ["fs"] }
thiserror = "=2.0.21"
uniffi = { version = "=0.32.2", default-features = false }
