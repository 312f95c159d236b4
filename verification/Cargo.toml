[package]
name = "extron_scaler"
version = "0.1.0"
edition = "2021"
publish = false

[dependencies]
clap = "*"
serialport = { version = "*", default-features = false }
