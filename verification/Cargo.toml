[package]
name = "baatzan"
version = "0.1.0"
edition = "2021"
publish = false

[dependencies]
parking_lot = "=0.10.2"
scopeguard = "=1.2.0"
