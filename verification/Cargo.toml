[package]
name = "memcache_async_rs"
version = "0.1.0"
edition = "2021"
publish = false

[dependencies]
byteorder = "1"
tokio = { version = "1", default-features = false, features = ["sync", "net", "rt", "io-util"] }
