[package]
name = "newclock"
version = "0.1.0"
edition = "2021"
publish = false

[dependencies]
clap = "2"
csv = "1"
env_logger = "0.9"
log = "0.4"
nvapi-hi = "*"
prettytable-rs = "*"
serde = { version = "1", features = ["derive"] }
serde_json = "1"
