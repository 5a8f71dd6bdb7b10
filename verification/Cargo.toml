[package]
name = "nb"
version = "0.1.0"
edition = "2021"
publish = false

[dependencies]
futures = "0.3"
futures-io = "0.3"
