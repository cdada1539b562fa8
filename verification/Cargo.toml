[package]
name = "rustle"
version = "0.1.0"
edition = "2021"
publish = false

[dependencies]
base64 = "=0.23.1"
serde_json = "=1.0.151"
serde = { version = "=1.0.229", features = ["derive"] }
reqwest = { version = "=0.13.5", default-features = false, features = ["form", "json"] }
tokio = { version = "=1.53.2", default-features = false, features = ["rt-multi-thread"] }
keyring = "=4.2.0"
