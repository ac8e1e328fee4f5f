[package]
name = "rain"
version = "0.1.0"
edition = "2021"
publish = false

[dependencies]
concurrent-queue = "2"
raki = "*"
tokio = { version = "1", features = ["rt-multi-thread", "macros", "time"] }
reqwest = { version = "0.12", default-features = false, features = ["json", "rustls-tls"] }
serde = { version = "1", features = ["derive"] }
serde_json = "1"
serde_with = { version = "3", features = ["base64"] }
