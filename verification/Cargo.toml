[package]
name = "quarto_render"
version = "0.1.0"
edition = "2021"
publish = false

[dependencies]
base64 = "0.22"
regex = "1"
serde = { version = "1", features = ["derive"] }
serde_yaml = "0.9"
tauri = { version = "2", default-features = false }
