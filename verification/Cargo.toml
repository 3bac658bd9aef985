[package]
name = "xcm-adapter"
version = "0.1.0"
edition = "2021"
publish = false

[dependencies]
frame-support = { version = "=49.0.0", default-features = false }
frame-system = { version = "*", default-features = false }
parity-scale-codec = "=3.7.5"
sp-runtime = { version = "=49.0.0", default-features = false }
staging-xcm = { version = "=25.0.0", default-features = false }
staging-xcm-executor = { version = "=29.0.0", default-features = false }
