[package]
name = "content_report"
version = "0.1.0"
edition = "2021"
publish = false

[dependencies]
rocket = { version = "=0.5.2", features = ["json"] }
serde = { version = "=1.0.229", features = ["derive"] }
ulid = "=1.2.1"
validator = "=0.16.1"
