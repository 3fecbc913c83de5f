[package]
name = "perms_core"
version = "0.1.0"
edition = "2021"
publish = false

[dependencies]
serde = { version = "*", features = ["derive"] }
validator = { version = "*", features = ["derive"] }
