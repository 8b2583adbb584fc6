[package]
name = "cdumay_http"
version = "0.1.0"
edition = "2021"
publish = false

[dependencies]
cdumay_core = "*"
serde-value = "*"
