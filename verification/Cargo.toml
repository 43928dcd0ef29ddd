[package]
name = "edr_napi"
version = "0.1.0"
edition = "2021"
publish = false

[dependencies]
napi = { version = "=2.16.17", features = ["dyn-symbols"] }
napi-derive = "=2.16.13"
