[package]
name = "hop_router"
version = "0.1.0"
edition = "2021"
publish = false

[dependencies]
secret-cosmwasm-std = "0.10"
secret-toolkit = "0.3"
serde = "1"
schemars = "0.7"
