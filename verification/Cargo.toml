[package]
name = "duplex_audio"
version = "0.1.0"
edition = "2021"
publish = false

[dependencies]
crossbeam-channel = "*"
cpal = "*"
anyhow = "*"
log = "*"
env_logger = "*"
clap = { version = "*", features = ["derive"] }
colored = "*"
dialoguer = "*"
serde = { version = "*", features = ["derive"] }
toml = "*"
