[package]
name = "c2c_proxy"
version = "0.1.0"
edition = "2021"
publish = false

[dependencies]
reqwest = { version = "=0.12.28", features = ["json", "gzip", "deflate", "brotli"] }
serde_json = "=1.0.154"
