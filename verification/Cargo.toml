[package]
name = "chat_exports"
version = "0.1.0"
edition = "2021"
publish = false

[dependencies]
chatpack = "0.5"
chrono = "0.4"
pyo3 = { version = "0.22", features = ["extension-module", "abi3-py38"] }
