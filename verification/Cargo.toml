[package]
name = "json_parser"
version = "0.1.0"
edition = "2021"
publish = false

[dependencies]
env_logger = "*"
log = "0.4"
serde_json = "1"
