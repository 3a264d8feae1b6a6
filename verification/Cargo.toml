[package]
name = "task_orchestrator"
version = "0.1.0"
edition = "2021"
publish = false

[dependencies]
async-trait = "0.1"
axum = "0.8"
backon = "1"
chrono = { version = "0.4", features = ["serde"] }
reqwest = { version = "0.12", default-features = false, features = ["json", "rustls-tls"] }
serde = { version = "1", features = ["derive"] }
serde_json = "1"
sqlx = { version = "0.8", default-features = false, features = ["runtime-tokio", "sqlite", "derive", "uuid", "chrono"] }
strum = "0.27"
strum_macros = "0.27"
thiserror = "2"
tokio = { version = "1", features = ["rt-multi-thread", "macros", "time", "sync", "process"] }
tracing = "0.1"
ts-rs = { version = "11", features = ["uuid-impl", "chrono-impl"] }
uuid = { version = "1", features = ["v4", "serde"] }
