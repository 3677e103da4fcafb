[package]
name = "defgen"
version = "0.1.0"
edition = "2021"
publish = false

[dependencies]
heck = "*"
walkdir = "*"
anyhow = "*"
serde = { version = "*", features = ["derive"] }
serde_json = "*"
