[package]
name = "oslc_auth"
version = "0.1.0"
edition = "2021"
publish = false

[dependencies]
rio_api = "0.8"
rio_xml = "0.8"
url = "2"
anyhow = "1"
axum = "0.6"
config = "0.13"
reqwest = { version = "0.11", default-features = false }
serde = { version = "1", features = ["derive"] }
tokio = { version = "1", features = ["macros", "rt-multi-thread", "sync"] }
