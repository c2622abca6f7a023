[package]
name = "tokio_examples"
version = "0.1.0"
edition = "2021"
publish = false

[dependencies]
bincode = "1"
bytes = "0.4"
futures = "0.1"
tokio = "0.1"
