[package]
name = "background_tasks"
version = "0.1.0"
edition = "2021"
publish = false

[dependencies]
validator = "=0.21.0"
serde_json = "=1.0.154"
serde = { version = "=1.0.229", features = ["derive"] }
tokio = { version = "=1.54.1", features = ["rt-multi-thread", "macros", "net", "io-util", "time", "sync", "signal"] }
sqlx = { version = "=0.9.0", default-features = false, features = ["postgres", "runtime-tokio", "json"] }
reqwest = { version = "=0.13.5", default-features = false, features = ["json"] }
meilisearch-sdk = "=0.33.0"
anyhow = "=1.0.104"
tracing = "=0.1.44"
secrecy = "=0.10.3"
config = { version = "=0.15.27", default-features = false, features = ["yaml"] }
tracing-subscriber = { version = "=0.3.23", features = ["env-filter"] }
axum = "*"
