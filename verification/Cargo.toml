[package]
name = "png_edge"
version = "0.1.0"
edition = "2021"
publish = false

[dependencies]
lazy_static = "1"
oxipng = { version = "*", default-features = false }
worker = "*"
