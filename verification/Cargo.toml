[package]
name = "recoverable-spawn"
version = "0.1.0"
edition = "2021"
publish = false

[dependencies]
once_cell = "1"
tokio = { version = "1", features = ["rt", "rt-multi-thread"] }
