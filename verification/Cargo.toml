[package]
name = "browser_shell"
version = "0.1.0"
edition = "2021"
publish = false

[dependencies]
url = "=2.5.8"
uuid = { version = "=1.29.1", features = ["v4"] }
chrono = "=0.4.45"
ring = "=0.17.14"
base64 = "=0.22.1"
serde = { version = "=1.0.229", features = ["derive"] }
serde_json = "=1.0.154"
thiserror = "=1.0.69"
rusqlite = { version = "=0.41.1", features = ["bundled"] }
egui = "0.29"
