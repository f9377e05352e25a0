[package]
name = "enttec"
version = "0.1.0"
edition = "2021"

[dependencies]
bytes = "0.4"
serial = "0.4"
