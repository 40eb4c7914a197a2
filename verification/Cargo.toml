[package]
name = "bootloader_engine"
version = "0.1.0"
edition = "2021"
publish = false

[dependencies]
cairo-vm = "=3.2.0"
starknet-crypto = "=0.8.1"
serde = { version = "=1.0.229", features = ["derive"] }
serde_json = "=1.0.151"
clap = { version = "=4.6.7", features = ["derive"] }
