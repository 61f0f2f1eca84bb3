[package]
name = "connectorx"
version = "0.1.0"
edition = "2021"
publish = false

[dependencies]
rust_decimal = "*"
num-traits = "*"
uuid = "*"
chrono = "*"
serde_json = "*"
