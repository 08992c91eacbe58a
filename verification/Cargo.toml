[package]
name = "soy_native"
version = "0.1.0"
edition = "2021"
publish = false

[dependencies]
rocksdb = { version = "0.18", default-features = false, features = ["multi-threaded-cf"] }
rustler = "*"
thiserror = "1"
