[package]
name = "terracotta"
version = "0.1.0"
edition = "2021"
publish = false

[dependencies]
urlencoding = "2"
serde = { version = "1", features = ["derive"] }
serde_json = "1"
tokio = { version = "1", features = ["rt", "time", "macros"] }
flate2 = "1"
tar = "0.4"
walkdir = "2"
reqwest = { version = "0.12", default-features = false, features = ["json", "rustls-tls"] }
