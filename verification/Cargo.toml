[package]
name = "stenbug"
version = "0.1.0"
edition = "2021"
publish = false

[dependencies]
etcetera = "*"
json = "0.12"
rand = "0.8"
reqwest = { version = "0.12", default-features = false, features = ["blocking"] }
serde = { version = "*", features = ["derive"] }
tempfile = "*"
toml = "*"
