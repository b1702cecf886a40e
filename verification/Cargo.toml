[package]
name = "makesksa"
version = "0.1.0"
edition = "2021"
publish = false

[dependencies]
anyhow = "=1.0.104"
clap = { version = "=4.6.7", features = ["derive"] }
clap-num = "=1.2.0"
flate2 = "=1.1.10"
hex = "=0.4.3"
soft-aes = "=0.2.2"
