[package]
name = "wolfssl_async"
version = "0.1.0"
edition = "2021"
publish = false

[dependencies]
bytes = "1"
tokio = { version = "1", default-features = false, features = ["io-util"] }
parking_lot = "0.12"
