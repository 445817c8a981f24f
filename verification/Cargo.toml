[package]
name = "hal"
version = "0.1.0"
edition = "2021"
publish = false

[dependencies]
bitcoin = { version = "0.32", features = ["serde", "rand-std"] }
miniscript = { version = "12", features = ["compiler"] }
hex = "0.4"
lightning-invoice = "*"
clap = "2"
serde = { version = "1", features = ["derive"] }
serde_json = "1"
