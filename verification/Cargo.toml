[package]
name = "ttp_core"
version = "0.1.0"
edition = "2021"
publish = false

[dependencies]
serde = { version = "*", features = ["derive"] }
serde_json = "*"
dirs = "*"
chrono = "*"
reqwest = { version = "*", default-features = false, features = ["blocking", "json", "multipart", "rustls-tls"] }
