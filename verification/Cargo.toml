[package]
name = "open_donate"
version = "0.1.0"
edition = "2021"
publish = false

[dependencies]
argon2 = "=0.5.3"
rand = "=0.8.8"
urlencoding = "=2.1.3"
uuid = { version = "=1.29.1", features = ["v4", "serde"] }
chrono = { version = "=0.4.45", features = ["serde"] }
serde = { version = "=1.0.229", features = ["derive"] }
serde_json = "=1.0.154"
axum = "=0.8.9"
tokio = { version = "=1.54.1", features = ["full"] }
sqlx = { version = "=0.8.6", default-features = false, features = ["postgres", "runtime-tokio", "macros", "chrono", "uuid"] }
tower-sessions = "=0.14.0"
tower-sessions-sqlx-store = { version = "=0.15.0", features = ["postgres"] }
dotenvy = "=0.15.7"
aws-sdk-s3 = { version = "1", features = ["behavior-version-latest"] }
reqwest = { version = "0.12", default-features = false, features = ["rustls-tls"] }
bytes = "1"
