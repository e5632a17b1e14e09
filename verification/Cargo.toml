[package]
name = "nannou_imageutil"
version = "0.1.0"
edition = "2021"
publish = false

[dependencies]
nannou = { version = "=0.16.0", default-features = false }
