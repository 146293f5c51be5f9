[package]
name = "wgpu-rs"
version = "0.1.0"
edition = "2021"
publish = false

[dependencies]
arrayvec = "=0.4.12"
wgpu-native = "=0.1.0"
cbindgen = "=0.29.4"
