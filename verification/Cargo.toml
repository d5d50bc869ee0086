[package]
name = "age_inbox"
version = "0.1.0"
edition = "2021"
publish = false

[dependencies]
age = { version = "0.11", features = ["async"] }
argon2 = "0.5"
bech32 = "0.9"
rand = "0.9"
zeroize = "1"
serde = { version = "1", features = ["derive"] }
serde_json = "1"
tokio = { version = "1", features = ["full"] }
tokio-util = { version = "0.7", features = ["compat", "io"] }
futures-util = { version = "0.3", features = ["io"] }
axum = { version = "0.8", features = ["multipart"] }
tower-http = { version = "0.6", features = ["cors"] }
tracing = "0.1"
tracing-subscriber = "0.3"
