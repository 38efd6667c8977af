[package]
name = "kaku"
version = "0.1.0"
edition = "2021"
publish = false

[dependencies]
tokio = { version = "*", features = ["sync", "rt-multi-thread", "macros", "net", "signal"] }
uuid = { version = "*", features = ["v4", "serde"] }
chrono = { version = "*", features = ["serde"] }
unidecode = "*"
synapps = "*"
axum = "*"
clap = { version = "*", features = ["derive"] }
serde = { version = "*", features = ["derive"] }
anyhow = "*"
thiserror = "*"
log = "*"
env_logger = "*"
