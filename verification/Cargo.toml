[package]
name = "tauri-plugin-screenshots"
version = "0.1.0"
edition = "2021"
publish = false

[dependencies]
serde = { version = "1", features = ["derive"] }
xcap = "0.0.14"
