[package]
name = "honeybeepf"
version = "0.1.0"
edition = "2021"
publish = false

[dependencies]
anyhow = "1"
aya = "0.13"
aya-ebpf = "0.1"
aya-log = "0.2"
clap = { version = "4", features = ["derive"] }
config = { version = "0.14", default-features = false }
dotenvy = "0.15"
env_logger = "0.11"
libc = "0.2"
log = "0.4"
opentelemetry = { version = "0.27", features = ["metrics"] }
opentelemetry-otlp = { version = "0.27", default-features = false, features = ["grpc-tonic", "metrics"] }
opentelemetry_sdk = { version = "0.27", features = ["rt-tokio", "metrics"] }
serde = { version = "1", features = ["derive"] }
tokio = { version = "1", features = ["macros", "rt", "rt-multi-thread", "signal"] }
