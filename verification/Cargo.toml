[package]
name = "payments_engine"
version = "0.1.0"
edition = "2021"
publish = false

[dependencies]
clap = { version = "*", features = ["derive"] }
csv = "*"
env_logger = "*"
log = "*"
rust_decimal = "*"
serde = { version = "*", features = ["derive"] }
thiserror = "*"
