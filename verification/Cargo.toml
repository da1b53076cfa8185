[package]
name = "rustdv"
version = "0.1.0"
edition = "2021"
publish = false

[dependencies]
libloading = "0.8"
