[package]
name = "signed_docs"
version = "0.1.0"
edition = "2021"
publish = false

[dependencies]
base64 = "*"
ring = "*"
serde = { version = "1", features = ["derive"] }
serde_json = "1"
uuid = { version = "*", features = ["v4"] }
