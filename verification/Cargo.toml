[package]
name = "ts3plugin"
version = "0.3.0"
edition = "2021"
publish = false

[dependencies]
ts3plugin-sys = "*"
chrono = "*"
lazy_static = "*"
libc = "*"
