[package]
name = "sigil"
version = "0.1.0"
edition = "2021"
publish = false

[dependencies]
molten_brand = "*"
