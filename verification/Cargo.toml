[package]
name = "user_model"
version = "0.1.0"
edition = "2021"
publish = false

[dependencies]
anyhow = "1"
chrono = "0.4"
rand = "0.9"
thiserror = "2"
uuid = { version = "1", features = ["v4"] }
validator = "*"
