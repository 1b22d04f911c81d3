[package]
name = "transmission_fetcher"
version = "0.1.0"
edition = "2021"
publish = false

[dependencies]
base64 = "=0.22.1"
bytes = "1"
chrono = "=0.4.45"
http = "1"
http-body-util = "0.1"
hyper = "1"
opentelemetry = "0.32"
prosa = "0.5"
prosa-fetcher = "0.5"
prosa-utils = "0.5"
serde = { version = "1", features = ["derive"] }
serde_json = { version = "=1.0.154", features = ["preserve_order"] }
tokio = { version = "1", features = ["sync"] }
tracing = "0.1"
