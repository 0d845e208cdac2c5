[package]
name = "kvs"
version = "0.1.1"
edition = "2021"
publish = false

[dependencies]
clap = { version = "3.2", features = ["derive"] }
