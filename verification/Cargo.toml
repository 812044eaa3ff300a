[package]
name = "perceptia"
version = "0.1.0"
edition = "2021"
publish = false

[dependencies]
nix = { version = "*", features = ["event", "fs", "signal"] }
skylane = "*"
libudev = "*"
drm-rs = "*"
gbm-rs = "*"
clap = "2"
