[package]
name = "maki-providers"
version = "0.1.0"
edition = "2021"
publish = false

[dependencies]
flume = "0.11"
inventory = "0.3"
isahc = "1"
serde_json = "1"
smol = "2"
tracing = "0.1"
