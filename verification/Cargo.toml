[package]
name = "crc32_fold"
version = "0.1.0"
edition = "2021"
publish = false

[dev-dependencies]
crc32fast = "1"
