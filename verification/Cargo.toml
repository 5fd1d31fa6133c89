[package]
name = "poseidon_bn128"
version = "0.1.0"
edition = "2021"
publish = false

[dependencies]
scalarff = { version = "=0.8.1", features = ["alt_bn128"] }
num-bigint = "=0.4.8"
num-traits = "=0.2.19"
anyhow = "=1.0.104"
serde = { version = "=1.0.229", features = ["derive"] }
serde_json = "=1.0.151"

[dev-dependencies]
poseidon-rs = "=0.0.10"
ff_ce = "=0.11.0"
