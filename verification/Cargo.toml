[package]
name = "client_config"
version = "0.1.0"
edition = "2021"
publish = false

[dependencies]
iota-wallet = "*"
url = "2"
