[package]
name = "microray"
version = "0.1.0"
edition = "2021"
publish = false

[dependencies]
bmp = "*"

[dev-dependencies]
rand = "0.8"
