[package]
name = "chai"
version = "0.1.0"
edition = "2021"
publish = false

[dependencies]
ropey = "*"
anyhow = "*"
crossterm = { version = "*", features = ["event-stream"] }
tokio = { version = "*", features = ["fs", "macros", "rt-multi-thread"] }
futures-core = "*"
futures-util = "*"
