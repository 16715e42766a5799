[package]
name = "nomnom"
version = "0.1.0"
edition = "2021"
publish = false

[dependencies]
dirs = "=6.0.0"
rfd = "0.15"
tokio = { version = "=1.54.1", features = ["process", "io-util", "rt"] }
