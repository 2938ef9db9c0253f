[package]
name = "arcade_drive"
version = "0.1.0"
edition = "2021"
publish = false

[dependencies]
num = { version = "=0.4.3", default-features = false }
pros = "=0.0.10"
