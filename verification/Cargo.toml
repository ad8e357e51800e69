[package]
name = "launchpad_qlc"
version = "0.1.0"
edition = "2021"
publish = false

[dependencies]
anyhow = "1"
env_logger = "0.11"
log = "0.4"
midir = "0.10"
rosc = "0.10"
serde = { version = "1", features = ["derive"] }
serde_json = "1"
toml = "0.8"
