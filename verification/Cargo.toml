[package]
name = "yaiss"
version = "0.1.0"
edition = "2021"
publish = false

[dependencies]
axum = "=0.8.9"
axum-server = "=0.7.3"
tokio = { version = "=1.53.2", features = ["full"] }
tower-http = { version = "=0.7.1", features = ["cors"] }
notify = "=8.2.0"
futures = "=0.3.34"
rand = "=0.10.3"
sqlx = { version = "=0.9.0", features = ["runtime-tokio", "sqlite", "migrate"] }
chrono = "=0.4.45"
serde = { version = "=1.0.229", features = ["derive"] }
serde_json = "=1.0.151"
async-trait = "=0.1.92"
tracing = "=0.1.44"
tracing-subscriber = "=0.3.23"
tokio-util = { version = "=0.7.19", features = ["io"] }
