[package]
name = "zwo_trainer"
version = "0.1.0"
edition = "2021"
publish = false

[dependencies]
tokio = { version = "*", features = ["full"] }
btleplug = "*"
uuid = "*"
futures = "*"
serde = { version = "*", features = ["derive"] }
serde-xml-rs = "*"
anyhow = "*"
log = "*"
env_logger = "*"
clap = { version = "*", features = ["derive"] }
termion = "*"
