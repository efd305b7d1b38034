[package]
name = "cargo_manager"
version = "0.1.0"
edition = "2021"
publish = false

[dependencies]
crates-io = "=0.39.2"
curl = "=0.4.50"
