[package]
name = "frost"
version = "0.1.0"
edition = "2021"
publish = false

[dependencies]
frost-secp256k1-tr = "=3.0.0"
frost-core = "=3.0.0"
k256 = "=0.13.4"
bitcoin = "=0.32.102"
rand = "=0.8.8"

[dev-dependencies]
hex = "=0.4.3"
