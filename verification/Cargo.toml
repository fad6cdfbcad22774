[package]
name = "revm_alloy"
version = "0.1.0"
edition = "2021"
publish = false

[dependencies]
alloy-consensus = "*"
alloy-eips = { version = "*", features = ["k256"] }
alloy-primitives = "*"
revm-context-interface = "*"
revm-primitives = "*"

[dev-dependencies]
k256 = "*"
