[package]
name = "atomic_swap"
version = "0.1.0"
edition = "2021"
publish = false

[dependencies]
casper-contract = { version = "3", default-features = false }
casper-types = { version = "3" }
hex = "0.4"
sha3 = "0.10"
