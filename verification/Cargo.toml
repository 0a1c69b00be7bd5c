[package]
name = "docmon"
version = "0.1.0"
edition = "2021"
publish = false

[dependencies]
anyhow = "*"
base64 = "*"
bollard = "*"
chrono = "*"
clap = "*"
config = "*"
env_logger = "*"
futures-util = "*"
hyper = { version = "0.14", features = ["client", "http1", "tcp"] }
hyper-tls = "0.5"
log = "*"
openssl = "*"
serde = { version = "*", features = ["derive"] }
serde_json = "*"
tokio = { version = "*", features = ["sync", "rt-multi-thread", "macros", "time", "signal"] }
