[package]
name = "multi_isolate"
version = "0.1.0"
edition = "2021"
publish = false

[dependencies]
deno_runtime = "0.37"
once_cell = "1"
tokio = { version = "1", features = ["full"] }
url = "=2.5.8"
