[package]
name = "gpt_chat_backend"
version = "0.1.0"
edition = "2021"
publish = false

[dependencies]
rand = "0.8"
ttl_cache = "0.5"
serde = { version = "1", features = ["derive"] }
serde_json = "1"
reqwest = { version = "0.11", default-features = false }
futures = "0.3"
