[package]
name = "tracking-allocator"
version = "0.1.2"
edition = "2021"
publish = false

[dependencies]
tracing = { version = "0.1", default-features = false, features = ["std"] }
