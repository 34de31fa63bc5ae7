[package]
name = "resmoke_suite"
version = "0.1.0"
edition = "2021"
publish = false

[dependencies]
serde_yaml = "0.9"
tracing = "0.1"
