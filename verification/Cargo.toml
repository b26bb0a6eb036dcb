[package]
name = "mvneer"
version = "0.1.0"
edition = "2021"
publish = false

[dependencies]
serde_json = "*"
clap = "*"
curl = "*"
env_logger = "*"
log = "*"
semver = "*"
