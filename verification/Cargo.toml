[package]
name = "payments_engine"
version = "0.1.0"
edition = "2021"
publish = false

[dependencies]
csv-async = { version = "*", features = ["tokio"] }
serde = { version = "*", features = ["derive"] }
tokio = { version = "*", features = ["full"] }
tokio-stream = "*"
