[package]
name = "notify_backend"
version = "1.0.0"
edition = "2021"
publish = false

[dependencies]
futures = "0.1"
mio = "0.6"
