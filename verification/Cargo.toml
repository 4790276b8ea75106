[package]
name = "minichain"
version = "0.1.0"
edition = "2021"
publish = false

[dependencies]
bincode = "1.3"
rust-crypto = "0.2.36"
serde = { version = "1", features = ["derive"] }
