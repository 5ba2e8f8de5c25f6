[package]
name = "nitox"
version = "0.1.0"
edition = "2021"
publish = false

[dependencies]
bytes = "0.4"
native-tls = "0.2"
futures = "0.1"
parking_lot = "0.12"
tokio-codec = "0.1"
tokio-tcp = "0.1"
tokio-executor = "0.1"
tokio-tls = "0.2"
