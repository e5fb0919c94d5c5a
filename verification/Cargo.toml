[package]
name = "non_empty_string"
version = "0.1.0"
edition = "2021"
publish = false

[dependencies]
serde = "1"
schemars = "1"
serde_json = "1"
