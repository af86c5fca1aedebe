[package]
name = "strict_sni"
version = "0.1.0"
edition = "2021"
publish = false

[dependencies]
fluent-uri = "*"
