[package]
name = "metrics_tree"
version = "0.1.0"
edition = "2021"
publish = false

[dependencies]
rust-code-analysis = "=0.0.24"
pyo3 = "=0.29.3"
