[package]
name = "can_relay"
version = "0.1.0"
edition = "2021"
publish = false

[dependencies]
hex = "*"
socketcan = "*"
clap = "*"
serde = { version = "*", features = ["derive"] }
rocket = { version = "*", features = ["json"] }
chrono = "*"
