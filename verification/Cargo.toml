[package]
name = "rust_mobile_telemetry"
version = "0.1.0"
edition = "2021"
publish = false

[dependencies]
opentelemetry = "*"
opentelemetry_sdk = { version = "*", features = ["testing"] }
opentelemetry-otlp = { version = "*", features = ["grpc-tonic"] }
opentelemetry-stdout = "*"
tracing = "*"
tracing-subscriber = { version = "*", features = ["env-filter"] }
tracing-opentelemetry = "*"
tokio = { version = "*", features = ["rt-multi-thread"] }
