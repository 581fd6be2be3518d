[package]
name = "fuzz_rng"
version = "0.1.0"
edition = "2021"
publish = false

[dependencies]
getrandom = "*"
