[package]
name = "moli_renderer"
version = "0.1.0"
edition = "2021"
publish = false

[dependencies]
anyhow = "1"
serde = { version = "1", features = ["derive"] }
serde_json = "1"
tokio = { version = "1", default-features = false, features = ["sync", "rt", "io-util", "io-std", "macros"] }
tracing = "0.1"
url = "2"
v8 = { version = "*", default-features = false }
