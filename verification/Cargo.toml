[package]
name = "kavisnet"
version = "0.1.0"
edition = "2021"
publish = false

[dependencies]
chrono = "0.4"
dark-light = "1"
dirs = "*"
notify = "*"
serde = { version = "1", features = ["derive"] }
smol = "2"
toml = "*"
