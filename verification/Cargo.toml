[package]
name = "otlp_metrics_client"
version = "0.1.0"
edition = "2021"
publish = false

[dependencies]
opentelemetry_sdk = { version = "*", default-features = false, features = ["metrics"] }
opentelemetry-proto = { version = "*", default-features = false, features = ["gen-tonic-messages", "metrics"] }
prost = "*"
http = "*"

[dev-dependencies]
opentelemetry = "*"
