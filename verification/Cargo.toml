[package]
name = "supervise"
version = "0.1.0"
edition = "2021"
publish = false

[dependencies]
serde_json = "*"
reqwest = { version = "*", default-features = false, features = ["json", "rustls-tls", "stream"] }
tokio = { version = "*", features = ["rt-multi-thread", "time", "macros"] }
futures-util = "*"
