[package]
name = "playout"
version = "0.1.0"
edition = "2021"
publish = false

[dependencies]
simplelog = { version = "=0.12.2", features = ["paris"] }
