[package]
name = "roboat"
version = "0.1.0"
edition = "2021"
publish = false

[dependencies]
bytes = "=1.12.1"
reqwest = { version = "=0.13.5", default-features = false, features = ["query"] }
