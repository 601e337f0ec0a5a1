[package]
name = "parsec_interface"
version = "0.1.0"
edition = "2021"
publish = false

[dependencies]
zeroize = "1"
psa-crypto = { version = "0.9", default-features = false }
