[package]
name = "discord2"
version = "0.1.0"
edition = "2021"
publish = false

[dependencies]
base64 = "*"
chrono = "0.4"
reqwest = { version = "*", default-features = false, features = ["json"] }
serde = { version = "1", features = ["derive"] }
serde_json = "1"
