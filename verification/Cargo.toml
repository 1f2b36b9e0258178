[package]
name = "mclang"
version = "0.5.0"
edition = "2021"
publish = false

[dependencies]
serde_json = "1"
