[package]
name = "rust_logging"
version = "0.1.0"
edition = "2021"
publish = false

[dependencies]
isatty = "=0.1.9"
