[package]
name = "tensor_meta"
version = "0.1.0"
edition = "2021"
publish = false

[dependencies]
egg = "0.6"
rand = "0.8"
