[package]
name = "cubism_model"
version = "0.1.0"
edition = "2021"
publish = false

[dependencies]
gdnative = "0.9.3"
serde_json = "=1.0.154"
