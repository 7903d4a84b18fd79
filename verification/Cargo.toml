[package]
name = "pool_indexer"
version = "0.1.0"
edition = "2021"
publish = false

[dependencies]
fixed-point-math = "=0.1.0"
serde = { version = "=1.0.229", features = ["derive"] }
soroban-sdk = "=21.7.7"
stellar-strkey = "=0.0.8"
zephyr-sdk = "=0.2.4"
