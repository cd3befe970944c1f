[package]
name = "pjrt"
version = "0.1.0"
edition = "2021"
publish = false

[dependencies]
pjrt-sys = "*"
bon = "*"
