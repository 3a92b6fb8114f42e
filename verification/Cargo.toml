[package]
name = "capi_core"
version = "0.1.0"
edition = "2021"
publish = false

[dependencies]
urlencoding = "*"
serde = { version = "*", features = ["derive"] }
serde_json = "*"
sysinfo = "*"
dirs = "*"
