[package]
name = "time_lock_vault"
version = "0.1.0"
edition = "2021"
publish = false

[dependencies]
soroban-sdk = "22"

[dev-dependencies]
arbitrary = "1"
rand = "0.8"
