[package]
name = "iec60870"
version = "0.1.0"
edition = "2021"
publish = false

[dependencies]
bma-ts = { version = "*", features = ["chrono"] }
chrono = "*"
thiserror = "*"
