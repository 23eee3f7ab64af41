[package]
name = "sealedstruct"
version = "0.1.0"
edition = "2021"
publish = false

[dependencies]
uuid = "*"
chrono = "*"
serde = { version = "*", features = ["derive"] }
serde_json = "*"
