[package]
name = "x86_64_backend"
version = "0.1.0"
edition = "2021"
publish = false

[dependencies]
target-lexicon = "*"
