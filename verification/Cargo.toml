[package]
name = "tuf"
version = "0.1.0"
edition = "2021"
publish = false

[dependencies]
chrono = "0.4"
data-encoding = "2"
ring = "0.17"
serde = { version = "1", features = ["derive"] }
