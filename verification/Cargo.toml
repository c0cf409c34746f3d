[package]
name = "download-manager"
version = "0.1.0"
edition = "2021"
publish = false

[dependencies]
futures = "0.3"
headers = "0.4"
reqwest = { version = "0.12", default-features = false, features = ["stream"] }
serde = { version = "1", features = ["derive"] }
tokio = { version = "1", features = ["macros", "sync"] }
tracing = "0.1"

[dev-dependencies]
serde_json = "1"
