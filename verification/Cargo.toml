[package]
name = "auth_service"
version = "0.1.0"
edition = "2021"
publish = false

[dependencies]
argon2 = "=0.5.3"
rand = "=0.8.8"
uuid = { version = "=1.29.0", features = ["v4"] }
jsonwebtoken = "=9.3.1"
serde_json = "=1.0.154"
chrono = "=0.4.45"
serde = { version = "=1.0.229", features = ["derive"] }
secrecy = { version = "=0.8.0", features = ["serde"] }
tokio = { version = "=1.54.1", features = ["full"] }
axum = "=0.7.9"
axum-extra = { version = "=0.9.6", features = ["cookie"] }
tower-http = { version = "=0.5.2", features = ["cors", "fs", "trace"] }
tracing = "=0.1.44"
color-eyre = "=0.6.5"
thiserror = "=1.0.69"
dotenvy = "=0.15.7"
lazy_static = "=1.5.1"
time = "=0.3.55"
redis = "=0.25.5"
sqlx = { version = "=0.8.6", default-features = false, features = ["runtime-tokio", "postgres"] }
reqwest = { version = "0.12", default-features = false, features = ["blocking", "json", "rustls-tls"] }
