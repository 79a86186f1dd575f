[package]
name = "batch_dispatcher"
version = "0.1.0"
edition = "2021"
publish = false

[dependencies]
chrono = "0.4"
env_logger = "0.10"
hyper = { version = "0.14", features = ["full"] }
hyper-tls = "0.5"
log = "0.4"
pin-utils = "0.1"
rand = "0.8"
serde = { version = "1", features = ["derive"] }
serde_json = "1"
structopt = "0.3"
tokio = { version = "1", features = ["full"] }
tokio-stream = { version = "0.1", features = ["io-util"] }
