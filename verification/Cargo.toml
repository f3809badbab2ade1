[package]
name = "gcp_resource_detector"
version = "0.1.0"
edition = "2021"
publish = false

[dependencies]
opentelemetry = "0.23"
opentelemetry_sdk = "0.23"
reqwest = { version = "0.12", default-features = false, features = ["json"] }
serde_json = "1"
tracing = "0.1"
