[package]
name = "dshot"
version = "0.1.0"
edition = "2021"
publish = false

[dependencies]
embedded-hal-async = "*"
esp-hal = "*"
