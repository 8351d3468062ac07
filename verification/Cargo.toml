[package]
name = "snake_core"
version = "0.1.0"
edition = "2021"
publish = false

[dependencies]
instant = "0.1"
serde = { version = "1", features = ["derive"] }
serde_json = "1"
