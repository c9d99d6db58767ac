[package]
name = "fractality"
version = "0.1.0"
edition = "2021"
publish = false

[dependencies]
backtrace = "*"
smallstr = "*"
