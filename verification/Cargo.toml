[package]
name = "antiquar"
version = "0.1.0"
edition = "2021"
publish = false

[dependencies]
toml = "*"
walkdir = "2"
fs4 = "*"
