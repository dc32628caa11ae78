[package]
name = "bungee_rs"
version = "0.1.0"
edition = "2021"
publish = false

[dependencies]
cpp = "0.5"
