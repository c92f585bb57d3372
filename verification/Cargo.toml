[package]
name = "cpvc"
version = "0.1.0"
edition = "2021"
publish = false

[dependencies]
libpulse-binding = "*"
libpulse-sys = "*"
