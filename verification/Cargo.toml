[package]
name = "request_scanner"
version = "0.1.0"
edition = "2021"
publish = false

[dependencies]
httparse = "1"
pyo3 = "0.20"
