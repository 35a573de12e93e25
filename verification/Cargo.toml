[package]
name = "utility_launcher"
version = "0.1.0"
edition = "2021"
publish = false

[dependencies]
uuid = { version = "1", default-features = false, features = ["std", "v4"] }
serde = { version = "1", features = ["derive"] }
serde_json = "1"
tokio = { version = "1", default-features = false, features = ["time"] }
tauri = { version = "2", default-features = false, features = ["wry", "tray-icon"] }
