[package]
name = "http_engine"
version = "0.1.0"
edition = "2021"
publish = false

[dependencies]
reqwest = { version = "=0.12.28", features = ["blocking"] }
parking_lot = "=0.12.5"
