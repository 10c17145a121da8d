[package]
name = "ebacktrace"
version = "0.3.0"
edition = "2021"
publish = false

[dependencies]
backtrace = "0.3"
