[package]
name = "pbgql"
version = "0.1.0"
edition = "2021"

[dependencies]
anyhow = "1"
reqwest = { version = "0.12", default-features = false }
serde = "1"
serde_json = "1"
