[package]
name = "vocal_mouse"
version = "0.1.0"
edition = "2021"
publish = false

[dependencies]
anyhow = "*"
cpal = "*"
device_query = "*"
enigo = "*"
pitch-detector = "*"
serde = { version = "*", features = ["derive"] }
toml = "*"
