[package]
name = "coub_clip"
version = "0.1.0"
edition = "2021"
publish = false

[dependencies]
url = "*"
serde_json = "*"
tempfile = "*"
reqwest = { version = "*", default-features = false, features = ["blocking"] }
