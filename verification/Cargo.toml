[package]
name = "simpleauth"
version = "0.1.0"
edition = "2021"
publish = false

[dependencies]
serde_json = "1"
rocket = "0.5"
tera = "1"
