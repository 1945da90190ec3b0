[package]
name = "wslforge"
version = "0.1.0"
edition = "2021"
publish = false

[dependencies]
anyhow = "=1.0.104"
clap = { version = "=4.6.7", features = ["derive"] }
encoding_rs = "=0.8.42"
env_logger = "=0.11.11"
expand_str = "=0.1.1"
log = "=0.4.34"
minijinja = "=2.24.0"
serde = { version = "=1.0.229", features = ["derive"] }
serde_yaml = "=0.9.34"
sha-crypt = "=0.5.0"
shellexpand = "=3.1.2"
url = "=2.5.8"
