[package]
name = "codeclip"
version = "0.1.0"
edition = "2021"
publish = false

[dependencies]
glob = "*"
content_inspector = "*"
ignore = "*"
arboard = "*"
clap = { version = "*", features = ["derive"] }
