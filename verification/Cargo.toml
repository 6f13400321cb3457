[package]
name = "nvtweak"
version = "0.1.0"
edition = "2021"
publish = false

[dependencies]
nvml-wrapper = "=0.13.0"
nix = { version = "=0.31.3", features = ["user"] }
