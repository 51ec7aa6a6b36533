[package]
name = "error-status"
version = "0.1.0"
edition = "2021"

[dependencies]
http = "1"
