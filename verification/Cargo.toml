[package]
name = "circuitbreaker_rs"
version = "0.1.0"
edition = "2021"
publish = false

[dependencies]
parking_lot = "0.12"
smallvec = "1"
futures = { version = "0.3", default-features = false, features = ["alloc"] }
