[package]
name = "write_proxy"
version = "0.1.0"
edition = "2021"
publish = false

[dependencies]
anyhow = "1"
bytes = "1"
crossbeam = "0.8"
fallible-iterator = "0.2"
postgres-protocol = "0.6"
url = "2"
uuid = { version = "1", features = ["v4"] }
