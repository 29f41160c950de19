[package]
name = "cargo_android"
version = "0.1.0"
edition = "2021"
publish = false

[dependencies]
which = "*"
target = "*"
