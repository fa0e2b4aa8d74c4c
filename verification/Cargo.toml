[package]
name = "colap"
version = "0.1.0"
edition = "2021"
publish = false

[dependencies]
anyhow = "1"
chrono = "0.4"
clap = "4"
env_logger = "*"
handlebars = "*"
heck = "*"
log = "0.4"
rustemo = "*"
serde_json = "1"
