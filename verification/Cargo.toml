[package]
name = "vivcms"
version = "0.1.0"
edition = "2021"
publish = false

[dependencies]
sha2 = "0.8"
hex = "0.4"
spongedown = "*"
diesel = { version = "1.4", features = ["sqlite"] }
askama = "0.10"
rocket = { version = "0.5", features = ["secrets"] }
thiserror = "1.0"
