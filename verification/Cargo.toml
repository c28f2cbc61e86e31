[package]
name = "mymc_gtk"
version = "0.1.0"
edition = "2021"
publish = false

[dependencies]
pyo3 = { version = "=0.28.3", features = ["auto-initialize"] }
thiserror = "=2.0.21"
async-channel = "=2.5.0"
gtk4 = "=0.10.3"
