[package]
name = "file_data_decode"
version = "0.1.0"
edition = "2021"
publish = false

[dependencies]
serde_json = "*"
