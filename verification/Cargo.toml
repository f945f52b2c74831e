[package]
name = "librazer"
version = "0.1.0"
edition = "2021"
publish = false

[dependencies]
rusb = "*"
rgb = { version = "*", features = ["serde"] }
serde = { version = "*", features = ["derive"] }
confy = "*"
