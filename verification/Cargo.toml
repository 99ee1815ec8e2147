[package]
name = "usdshe"
version = "0.1.0"
edition = "2021"
publish = false

[dependencies]
alloy-chains = "*"
alloy-primitives = { version = "*", default-features = false, features = ["std"] }
thiserror = "*"
