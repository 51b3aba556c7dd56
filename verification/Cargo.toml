[package]
name = "provisioner"
version = "0.1.0"
edition = "2021"
publish = false

[dependencies]
tokio = { version = "*", features = ["fs", "io-util", "macros", "process", "rt-multi-thread"] }
reqwest = { version = "*", default-features = false }
async-compression = { version = "*", features = ["gzip", "tokio"] }
tokio-tar = "*"
