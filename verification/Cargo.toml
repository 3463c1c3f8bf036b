[package]
name = "receipt_repository_api"
version = "0.1.0"
edition = "2021"
publish = false

[dependencies]
axum = "=0.7.9"
axum-server = { version = "=0.7.3", default-features = false, features = ["tls-rustls-no-provider"] }
bigdecimal = "=0.4.11"
chrono = { version = "=0.4.45", features = ["serde"] }
diesel = { version = "=2.3.14", features = ["postgres", "r2d2", "chrono", "numeric", "uuid"] }
dotenvy = "=0.15.7"
http = "=1.5.0"
rand = "=0.8.8"
rustls = { version = "0.23", default-features = false, features = ["ring", "std", "tls12"] }
serde = { version = "=1.0.229", features = ["derive"] }
serde_with = "=3.24.0"
thiserror = "=1.0.69"
tokio = { version = "=1.54.1", features = ["full"] }
tower-cookies = "=0.10.0"
tower-http = { version = "=0.5.2", features = ["cors", "trace"] }
tracing = "=0.1.44"
tracing-appender = "=0.2.5"
tracing-subscriber = { version = "=0.3.23", features = ["env-filter"] }
uuid = { version = "=1.29.0", features = ["v4", "serde"] }
