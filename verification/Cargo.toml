[package]
name = "shiro51"
version = "0.1.0"
edition = "2021"
publish = false

[dependencies]
bit_field = "*"
hex = "*"
log = "*"
chrono = "*"
clap = { version = "*", features = ["derive"] }
fern = { version = "*", features = ["colored"] }
