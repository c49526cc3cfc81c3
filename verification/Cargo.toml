[package]
name = "starlark_dialect"
version = "0.1.0"
edition = "2021"
publish = false

[dependencies]
allocative = "0.3"
dupe = "0.9"
thiserror = "1"
