[package]
name = "election_provider_support"
version = "0.1.0"
edition = "2021"
publish = false

[dependencies]
sp-npos-elections = "=43.0.0"
sp-arithmetic = "=28.0.1"
sp-core = "=43.0.0"
sp-keystore = "=0.49.0"
sp-crypto-hashing = "=0.1.0"
