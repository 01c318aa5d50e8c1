[package]
name = "panorama_swap"
version = "0.1.0"
edition = "2021"
publish = false

[dependencies]
primitive-types = { version = "0.12", default-features = false }
num-integer = { version = "0.1", default-features = false }
chrono = { version = "0.4", default-features = false, features = ["alloc"] }
