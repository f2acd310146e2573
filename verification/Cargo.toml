[package]
name = "kmoni"
version = "0.1.0"
edition = "2021"
publish = false

[dependencies]
serde = "1"
serde_json = "1"
time = { version = "0.3", default-features = false, features = ["std"] }
reqwest = { version = "0.12", default-features = false }
tokio = { version = "1", features = ["rt", "macros"] }
