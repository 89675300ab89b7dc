[package]
name = "psp20_piggy"
version = "0.1.0"
edition = "2021"
publish = false

[dependencies]
ink = "*"
