[package]
name = "gzip"
version = "0.1.0"
edition = "2021"
publish = false

[dependencies]
zlib-rs = "=0.6.8"
