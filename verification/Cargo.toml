[package]
name = "streampay"
version = "0.2.0"
edition = "2021"
publish = false

[dependencies]
soroban-sdk = "22"
