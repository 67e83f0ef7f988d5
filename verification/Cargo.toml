[package]
name = "agent_shell"
version = "0.1.0"
edition = "2021"
publish = false

[dependencies]
reqwest = { version = "0.12", default-features = false, features = ["json"] }
serde = { version = "1", features = ["derive"] }
tauri = { version = "2", default-features = false, features = ["tray-icon", "image-png"] }
tauri-plugin-autostart = "2"
tokio = { version = "1", features = ["time"] }
