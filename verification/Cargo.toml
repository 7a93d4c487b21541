[package]
name = "advanca"
version = "0.1.0"
edition = "2021"
publish = false

[dependencies]
parity-scale-codec = { version = "=3.7.5", features = ["derive"] }
sp-core = "=43.0.0"
sp-crypto-hashing = "=0.1.0"
sp-runtime = "=49.0.0"
