[package]
name = "matryoshka"
version = "0.1.0"
edition = "2021"
publish = false

[dependencies]
near-sdk = "2.0.0"
