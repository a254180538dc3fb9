[package]
name = "srbtr"
version = "0.1.0"
edition = "2021"
publish = false

[dependencies]
unicode-normalization = "*"
unicode_reader = "*"
clap = { version = "*", features = ["derive"] }
