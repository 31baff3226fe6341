[package]
name = "jitter_grid"
version = "0.1.0"
edition = "2021"
publish = false

[dependencies]
nannou = { version = "=0.19.0", default-features = false }
