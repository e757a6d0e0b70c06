[package]
name = "kommunikationszentrum"
version = "0.1.0"
edition = "2021"
publish = false

[dependencies]
anyhow = "1"
axum = "0.7"
base64 = "0.22"
dotenvy = "0.15"
log = "0.4"
serde = { version = "1", features = ["derive"] }
serde_json = "1"
spacetimedb = "1.2"
stalwart_mta_hook_types = "*"
tokio = { version = "1", features = ["full"] }
tower-http = { version = "0.5", features = ["cors"] }
tracing = "0.1"
tracing-subscriber = { version = "0.3", features = ["env-filter"] }
urlencoding = "2"
