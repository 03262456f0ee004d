[package]
name = "ads1110"
version = "0.1.0"
edition = "2021"
publish = false

[dependencies]
embassy-time = "*"
embedded-hal-async = "1.0"
