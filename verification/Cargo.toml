[package]
name = "json_encoded_size"
version = "0.1.0"
edition = "2021"
publish = false

[dependencies]
serde = "1"
ryu = "1"
metrics = "*"
