[package]
name = "customizable_inspector"
version = "0.1.0"
edition = "2021"
publish = false

[dependencies]
alloy-primitives = { version = "0.8", default-features = false, features = ["std"] }
revm = { version = "14", default-features = false, features = ["std"] }
