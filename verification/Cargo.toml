[package]
name = "snowboard"
version = "0.1.0"
edition = "2021"
publish = false

[dependencies]
sha1 = "*"
base64 = "*"
serde_json = "*"
chrono = "*"
tungstenite = { version = "*", default-features = false }
