[package]
name = "flipper"
version = "0.1.0"
edition = "2021"
publish = false

[dependencies]
risc0-zkvm = { version = "*", default-features = false, features = ["std"] }
