[package]
name = "fiber_collector"
version = "0.1.0"
edition = "2021"
publish = false

[dependencies]
alloy-consensus = "*"
anyhow = "1"
async-trait = "0.1"
futures = "0.3"

[dev-dependencies]
alloy-primitives = "*"
