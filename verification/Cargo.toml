[package]
name = "servici02"
version = "0.1.0"
edition = "2021"
publish = false

[dependencies]
lambda_runtime = "*"
serde = { version = "*", features = ["derive"] }
tokio = { version = "*", features = ["macros", "rt"] }
tracing = "*"
tracing-subscriber = "*"
