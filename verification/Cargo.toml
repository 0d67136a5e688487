[package]
name = "file_cipher"
version = "0.1.0"
edition = "2021"
publish = false

[dependencies]
aes = "0.7"
block-modes = "0.8"
rand = "0.8"
chrono = "0.4"
