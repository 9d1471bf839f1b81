[package]
name = "cedar_authz"
version = "0.1.0"
edition = "2021"
publish = false

[dependencies]
cedar-policy = "=4.14.0"
pyo3 = "=0.22.6"
serde_json = "=1.0.154"

[dev-dependencies]
regex = "=1.13.1"
