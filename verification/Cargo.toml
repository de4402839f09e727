[package]
name = "sc2exe"
version = "0.1.0"
edition = "2021"
publish = false

[dependencies]
scroll = "*"
clap = { version = "*", features = ["derive"] }
