[package]
name = "zyfi_client"
version = "0.1.0"
edition = "2021"
publish = false

[dependencies]
anyhow = "*"
tracing = "*"
reqwest = { version = "*", default-features = false }
