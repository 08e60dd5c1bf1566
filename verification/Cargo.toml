[package]
name = "openai-rs-types"
version = "0.1.0"
edition = "2021"
publish = false

[dependencies]
base64 = "0.22"
schemars = "1"
secrecy = "0.10"
serde = { version = "1", features = ["derive"] }
serde_json = "1"
thiserror = "2"
url = "2"
