[package]
name = "rusth"
version = "0.1.0"
edition = "2021"
publish = false

[dependencies]
rustyline = "*"
ansi_term = "*"
