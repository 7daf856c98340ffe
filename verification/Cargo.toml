[package]
name = "modem_console"
version = "0.1.0"
edition = "2021"
publish = false

[dependencies]
heapless = "*"
