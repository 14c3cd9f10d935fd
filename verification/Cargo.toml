[package]
name = "crowdloan_bench"
version = "0.1.0"
edition = "2021"
publish = false

[dependencies]
ed25519-dalek = "1"
parity-scale-codec = "3"
