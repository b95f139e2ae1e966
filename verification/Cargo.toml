[package]
name = "tabwallet"
version = "0.1.0"
edition = "2021"
publish = false

[dependencies]
bdk = { version = "0.27", default-features = false, features = ["electrum", "sqlite"] }
electrum-client = "0.12"
toml = "0.5"
serde = { version = "1", features = ["derive"] }
log = "0.4"
env_logger = "0.10"
