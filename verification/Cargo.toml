[package]
name = "rust_uuid"
version = "0.1.0"
edition = "2021"
publish = false

[dependencies]
uuid = { version = "1", features = ["v1", "v3", "v4", "v5"] }
pyo3 = { version = "0.20", features = ["extension-module"] }
