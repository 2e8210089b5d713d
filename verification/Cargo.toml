[package]
name = "razor_rpc"
version = "0.8.0"
edition = "2021"
publish = false

[dependencies]
nix = { version = "*", default-features = false }
crossfire = "*"
ahash = "*"
arc-swap = "*"
io-buffer = "*"
