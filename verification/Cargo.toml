[package]
name = "pact_extensions"
version = "0.1.0"
edition = "2021"
publish = false

[dependencies]
clap = { version = "=4.6.7", features = ["env", "string"] }
clap_complete = "=4.6.11"
comfy-table = "=7.2.2"
home = "=0.5.12"
opentelemetry = "0.33"
opentelemetry-appender-tracing = "0.33"
opentelemetry-otlp = { version = "0.33", features = ["grpc-tonic"] }
opentelemetry-stdout = "0.33"
opentelemetry_sdk = "0.33"
pact-broker-cli = "0.9"
reqwest = { version = "=0.12.28", default-features = false, features = ["json", "rustls-tls"] }
serde = { version = "=1.0.229", features = ["derive"] }
serde_json = "=1.0.154"
tokio = { version = "=1.54.1", features = ["rt-multi-thread", "macros"] }
tracing = "=0.1.44"
tracing-subscriber = "0.3"
