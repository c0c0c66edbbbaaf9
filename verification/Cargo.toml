[package]
name = "rocksdb3"
version = "0.1.0"
edition = "2021"
publish = false

[dependencies]
rocksdb = "*"
pyo3 = "*"
