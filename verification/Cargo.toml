[package]
name = "custody"
version = "1.0.0"
edition = "2021"
publish = false

[dependencies]
soroban-sdk = "22"
