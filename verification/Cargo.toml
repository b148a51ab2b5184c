[package]
name = "tcp_probe"
version = "0.1.0"
edition = "2021"

[dependencies]
time = "0.1"
