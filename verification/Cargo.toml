[package]
name = "c8y_mapper"
version = "0.1.0"
edition = "2021"
publish = false

[dependencies]
nanoid = "*"
sha256 = { version = "*", default-features = false }
