[package]
name = "observability_demo"
version = "0.1.0"
edition = "2021"
publish = false

[dependencies]
anyhow = "*"
axum = "=0.7.9"
opentelemetry = "=0.30.0"
opentelemetry-appender-tracing = "=0.30.1"
opentelemetry-otlp = { version = "=0.30.0", features = ["grpc-tonic", "trace", "metrics", "logs"] }
opentelemetry_sdk = "=0.30.0"
pyroscope = "=0.5.8"
pyroscope_pprofrs = "=0.2.10"
serde = { version = "*", features = ["derive"] }
serde_json = "*"
tokio = { version = "1", features = ["full"] }
tower-http = { version = "*", features = ["trace"] }
tracing = "*"
tracing-opentelemetry = "=0.31.0"
tracing-subscriber = { version = "*", features = ["env-filter"] }
