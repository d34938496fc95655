[package]
name = "carta_term"
version = "0.1.0"
edition = "2021"
publish = false

[dependencies]
anyhow = "1"
carta-schema = "*"
clap = { version = "3.2", features = ["derive"] }
crossterm = "0.24"
hex = "0.4"
