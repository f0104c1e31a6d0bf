[package]
name = "timeular_client"
version = "0.1.0"
edition = "2021"
publish = false

[dependencies]
reqwest = { version = "*", default-features = false }
serde_json = "*"
tokio = { version = "*", default-features = false, features = ["rt-multi-thread", "macros"] }
