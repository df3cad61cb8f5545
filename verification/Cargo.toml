[package]
name = "gyromouse"
version = "0.1.0"
edition = "2021"
publish = false

[dependencies]
anyhow = "=1.0.104"
cgmath = "=0.18.0"
clap = { version = "=3.2.25", features = ["derive"] }
enigo = "=0.0.14"
hidapi = "*"
