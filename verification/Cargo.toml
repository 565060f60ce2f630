[package]
name = "resource_pool"
version = "0.1.0"
edition = "2021"
publish = false

[dependencies]
dashmap = "5.5.3"
lazy_static = "1"
tokio = { version = "1", default-features = false, features = ["rt", "rt-multi-thread", "time"] }
