[package]
name = "lact"
version = "0.1.0"
edition = "2021"
publish = false

[dependencies]
indexmap = "2"
libloading = "0.8"
anyhow = "1"
