[package]
name = "upbase"
version = "0.1.0"
edition = "2021"
publish = false

[dependencies]
surrealdb = { version = "=1.5.6", default-features = false, features = ["protocol-ws"] }
chrono = "0.4"
serde = { version = "1", features = ["derive"] }
serde_json = "1"
derive_more = { version = "1", features = ["display", "from"] }
log = "0.4"
env_logger = { version = "0.11", default-features = false }
