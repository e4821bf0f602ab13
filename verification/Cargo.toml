[package]
name = "controller_claim"
version = "0.1.0"
edition = "2021"
publish = false

[dependencies]
sha2 = "0.10"
hex = "0.4"
clap = { version = "4", features = ["derive"] }
