[package]
name = "lazy_errors"
version = "0.1.0"
edition = "2021"
publish = false

[dependencies]
eyre = "0.6"
clap = { version = "4", features = ["derive"] }
