[package]
name = "proximity_service"
version = "0.1.0"
edition = "2021"
publish = false

[dependencies]
anyhow = "=1.0.104"
axum = "=0.6.20"
config = "=0.13.4"
dotenvy = "=0.15.7"
http = "=0.2.12"
hyper = { version = "=0.14.32", features = ["full"] }
opentelemetry = { version = "0.21", features = ["metrics"] }
opentelemetry-otlp = { version = "0.14", features = ["grpc-tonic", "metrics", "tls"] }
opentelemetry_sdk = { version = "0.21", features = ["rt-tokio-current-thread", "metrics"] }
sea-query = "=0.28.5"
sea-query-binder = { version = "=0.3.1", features = ["sqlx-postgres"] }
serde = { version = "=1.0.229", features = ["derive"] }
serde_derive = "=1.0.229"
sqlx = { version = "=0.6.3", features = ["runtime-tokio-rustls", "postgres"] }
tokio = { version = "=1.54.1", features = ["full"] }
tonic = { version = "0.9", features = ["tls"] }
tower = "=0.4.13"
tower-http = { version = "=0.3.5", features = ["trace", "request-id"] }
tracing = "=0.1.44"
tracing-opentelemetry = "0.22"
tracing-subscriber = { version = "=0.3.23", features = ["env-filter"] }
url = "=2.5.8"
uuid = { version = "=1.29.0", features = ["v4"] }
