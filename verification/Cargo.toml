[package]
name = "voxii"
version = "0.1.0"
edition = "2021"
publish = false

[dependencies]
base64 = "=0.22.1"
dirs = "=7.0.0"
reqwest = { version = "=0.12.28", features = ["json", "multipart"] }
serde = { version = "=1.0.229", features = ["derive"] }
serde_json = "=1.0.154"
uuid = { version = "=1.29.0", features = ["v4"] }
