[package]
name = "space_stellar"
version = "0.1.0"
edition = "2021"
publish = false

[dependencies]
soroban-sdk = { version = "=22.0.11", features = ["testutils"] }
stellar-access = "=0.4.1"
stellar-macros = "=0.4.1"
stellar-tokens = "=0.4.1"
subtle = "=2.5.0"
