[package]
name = "easy_cli"
version = "0.1.0"
edition = "2021"
publish = false

[dependencies]
clap = { version = "=4.6.7", features = ["string"] }
clap_complete = "=4.6.11"
env_logger = "=0.10.2"
log = "=0.4.34"
regex = "=1.13.1"
