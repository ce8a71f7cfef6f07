[package]
name = "bankai"
version = "0.1.0"
edition = "2021"
publish = false

[dependencies]
uuid = "1"
num-traits = "0.2"
serde = { version = "1", features = ["derive"] }
serde_json = "1"
thiserror = "1"
reqwest = { version = "0.12", default-features = false, features = ["json", "multipart"] }
