[package]
name = "crsql"
version = "0.1.0"
edition = "2021"
publish = false

[dependencies]
bytes = { version = "=1.5.0", default-features = false }
num-traits = { version = "0.2", default-features = false }
xxhash-rust = { version = "0.8", default-features = false, features = ["xxh3"] }
