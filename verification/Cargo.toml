[package]
name = "queryer"
version = "0.1.0"
edition = "2021"
publish = false

[dependencies]
anyhow = "*"
polars = { version = "*", default-features = false, features = ["lazy", "csv"] }
reqwest = { version = "*", default-features = false }
sqlparser = "*"
tokio = { version = "*", features = ["rt", "macros", "fs", "rt-multi-thread"] }
tracing = "*"
