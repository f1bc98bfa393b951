[package]
name = "image_transformer"
version = "0.1.0"
edition = "2021"
publish = false

[dependencies]
image = "*"
napi = "*"
napi-derive = "*"
