[package]
name = "raloword"
version = "0.1.0"
edition = "2021"
publish = false

[dependencies]
sled = "*"
url = "*"
rand = "*"
serde_json = "*"
config = "*"
env_logger = "*"
reqwest = { version = "*", default-features = false, features = ["blocking"] }
rocket = "*"
