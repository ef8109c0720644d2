[package]
name = "tick_events"
version = "0.1.0"
edition = "2021"
publish = false

[dependencies]
alloy = { version = "*", default-features = false, features = ["std", "eips", "rpc-types", "sol-types"] }
alloy-primitives = { version = "*", default-features = false, features = ["std"] }
