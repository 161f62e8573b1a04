[package]
name = "holdinvoice"
version = "0.1.0"
edition = "2021"
publish = false

[dependencies]
anyhow = "1"
bitcoin = { version = "0.32", features = ["rand-std"] }
cln-plugin = "*"
cln-rpc = "*"
hex = "0.4"
lightning-invoice = "*"
log = "0.4"
parking_lot = "0.12"
serde = { version = "1", features = ["derive"] }
serde_json = "1"
tokio = { version = "1", features = ["full"] }
