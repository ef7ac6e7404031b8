[package]
name = "as2_syntax"
version = "0.1.0"
edition = "2021"
publish = false

[dependencies]
rowan = "*"
serde = { version = "*", features = ["derive"] }
