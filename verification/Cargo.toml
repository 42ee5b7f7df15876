[package]
name = "solana_compute_budget"
version = "0.1.0"
edition = "2021"
publish = false

[dependencies]
uint = { version = "*", default-features = false }
primitive-types = { version = "*", default-features = false }
anchor-lang = "*"
