[package]
name = "tinifycli"
version = "0.1.0"
edition = "2021"
publish = false

[dependencies]
base64 = "*"
serde_json = "*"
reqwest = { version = "*", default-features = false, features = ["blocking"] }
text-colorizer = "*"
