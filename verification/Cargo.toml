[package]
name = "sidecar_lifecycle"
version = "0.1.0"
edition = "2021"
publish = false

[dependencies]
killport = "1"
log = "0.4"
env_logger = "0.11"
