[package]
name = "yappy_cajas"
version = "0.1.0"
edition = "2021"
publish = false

[dependencies]
axum = "0.8"
bigdecimal = "0.4"
chrono-tz = "*"
diesel = { version = "2", features = ["mysql", "r2d2", "numeric", "serde_json"] }
diesel-derive-enum = { version = "2", features = ["mysql"] }
dotenvy = "0.15"
reqwest = { version = "0.12", default-features = false, features = ["json", "rustls-tls"] }
serde = { version = "1", features = ["derive"] }
serde_json = "1"
thiserror = "2"
tokio = { version = "1", features = ["full"] }
tokio-cron-scheduler = "*"
tower-http = { version = "0.6", features = ["trace", "cors", "catch-panic"] }
tracing = "0.1"
tracing-subscriber = "0.3"
