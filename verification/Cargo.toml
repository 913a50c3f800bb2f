[package]
name = "database"
version = "0.1.0"
edition = "2021"
publish = false

[dependencies]
clearscreen = "*"
serde = { version = "1", features = ["derive"] }
serde_json = "1"
