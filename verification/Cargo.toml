[package]
name = "cpu16"
version = "0.1.0"
edition = "2021"
publish = false

[dependencies]
colog = "*"
log = "0.4"
