[package]
name = "civicchain"
version = "0.1.0"
edition = "2021"
publish = false

[dependencies]
sha2 = "0.10"
merkle_light = "*"
clap = { version = "4", features = ["derive"] }
