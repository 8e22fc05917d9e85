[package]
name = "container_credentials"
version = "0.1.0"
edition = "2021"
publish = false

[dependencies]
serde_json = "1"
http = "0.1"
hyper = "0.12"
futures = "0.1"
tokio = "0.1"
