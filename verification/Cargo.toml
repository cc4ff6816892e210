[package]
name = "stripe_requests"
version = "0.1.0"
edition = "2021"
publish = false

[dependencies]
miniserde = "0.1"
serde = { version = "1", features = ["derive"] }
