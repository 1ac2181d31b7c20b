[package]
name = "supply_processors"
version = "0.1.0"
edition = "2021"
publish = false

[dependencies]
rust-crypto = "0.2"
base64 = "0.10"
protobuf = "2"
sawtooth-sdk = "*"
sabre-sdk = "*"
clap = "2"
hyper = "0.11"
tokio-core = "0.1"
futures = "0.1"
json = "0.11"
