[package]
name = "watchdog_client"
version = "0.1.0"
edition = "2021"
publish = false

[dependencies]
custom_error = "1"
env_logger = "0.7"
log = "0.4"
serde = { version = "1", features = ["derive"] }
toml = "0.5"
url = "2"
ws = "0.9"
