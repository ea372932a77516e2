[package]
name = "rusty_mechanical_keyboard"
version = "0.1.0"
edition = "2021"
publish = false

[dependencies]
rand = "0.8"
rdev = "0.5"
rodio = "0.20"
serde = { version = "1", features = ["derive"] }
serde_json = "1"
