[package]
name = "raybox"
version = "0.1.0"
edition = "2021"
publish = false

[dependencies]
anyhow = "1"
base64 = "0.22"
image = { version = "0.25", default-features = false, features = ["png"] }
log = "0.4"
env_logger = "0.11"
notify = "*"
serde = { version = "1", features = ["derive"] }
serde_json = "1"
