[package]
name = "modsecurity"
version = "0.1.0"
edition = "2021"
publish = false

[dependencies]
lmdb-zero = "0.4"
rand = "0.8"
