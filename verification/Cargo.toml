[package]
name = "ctp_gateway"
version = "0.1.0"
edition = "2021"
publish = false

[dependencies]
encoding = "*"
chrono = "*"
