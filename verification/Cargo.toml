[package]
name = "hyper-socks-async"
version = "0.1.0"
edition = "2021"
publish = false

[dependencies]
byteorder = "=1.5.0"
futures = "0.1"
hyper = "0.11"
native-tls = "0.2"
tokio-core = "0.1"
tokio-io = "0.1"
tokio-service = "0.1"
tokio-tls = "0.2"
