[package]
name = "stwo_metal"
version = "0.1.0"
edition = "2021"
publish = false

[dependencies]
stwo = "*"
serde = { version = "1", features = ["derive"] }
