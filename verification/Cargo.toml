[package]
name = "llamix"
version = "0.1.0"
edition = "2021"
publish = false

[dependencies]
json = "*"
ansi_term = "*"
