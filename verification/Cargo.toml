[package]
name = "twyg"
version = "0.6.0"
edition = "2021"
publish = false

[dependencies]
chrono = "*"
log = "*"
owo-colors = { version = "*", features = ["supports-colors"] }
serde = { version = "*", features = ["derive"] }
