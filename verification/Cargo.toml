[package]
name = "therock_metrics"
version = "0.1.0"
edition = "2021"
publish = false

[dependencies]
hyper = { version = "0.14", features = ["full"] }
once_cell = "1"
opentelemetry = { version = "0.18", features = ["metrics", "rt-tokio"] }
opentelemetry-otlp = { version = "0.11", features = ["metrics"] }
rand = "0.8"
tokio = { version = "1", features = ["full"] }
tonic = "0.8"
