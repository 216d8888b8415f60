[package]
name = "traceroute"
version = "0.1.0"
edition = "2021"
publish = false

[dependencies]
anyhow = "1"
axum = "0.7"
clap = { version = "4", features = ["derive", "env"] }
etherparse = "*"
hostname = "0.4"
humantime = "2"
libc = "0.2"
opentelemetry = "0.26"
opentelemetry-otlp = { version = "0.26", default-features = false, features = ["trace", "grpc-tonic", "http-proto", "reqwest-client"] }
opentelemetry_sdk = { version = "0.26", features = ["rt-tokio"] }
rand = "0.9"
serde = { version = "1", features = ["derive"] }
serde_yaml = "0.9"
serde_yml = "*"
socket2 = { version = "0.5", features = ["all"] }
thiserror = "1"
tokio = { version = "1", features = ["full"] }
tracing = "0.1"
tracing-subscriber = { version = "0.3", features = ["env-filter"] }
uuid = { version = "1", features = ["v4"] }

[dev-dependencies]
serde_json = "1"
