[package]
name = "zx_host"
version = "0.1.0"
edition = "2021"
publish = false

[dependencies]
rustzx-core = { version = "=0.16.0", features = ["embedded-roms"] }
pc-keyboard = "=0.9.0"
embedded-graphics = "=0.8.2"
