[package]
name = "lemon_pdf"
version = "0.1.0"
edition = "2021"
publish = false

[dependencies]
flate2 = "1"
rust-crypto = "0.2"
