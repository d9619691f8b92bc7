[package]
name = "record_api"
version = "0.1.0"
edition = "2021"
publish = false

[dependencies]
axum = "0.6"
axum-macros = "0.3"
color-eyre = "0.6"
futures = "0.3"
serde = { version = "1", features = ["derive"] }
serde_json = "1"
serde_urlencoded = "0.7"
sqlx = { version = "0.7", features = ["runtime-tokio", "sqlite"] }
tokio = { version = "1", features = ["full"] }
tracing = "0.1"
tracing-subscriber = "0.3"
