[package]
name = "pixel_bridge"
version = "0.1.0"
edition = "2021"
publish = false

[dependencies]
wasmi = "*"

[dev-dependencies]
wat = "*"
