[package]
name = "cryo_freeze"
version = "0.1.0"
edition = "2021"
publish = false

[dependencies]
polars = { version = "*", default-features = false }
tokio = { version = "*", features = ["rt", "rt-multi-thread", "sync"] }
futures = "*"
