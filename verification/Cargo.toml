[package]
name = "tracing_snapshot"
version = "0.1.0"
edition = "2021"
publish = false

[dependencies]
serde = { version = "*", features = ["derive"] }
tracing-core = "*"
