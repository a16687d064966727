[package]
name = "makimono"
version = "0.1.0"
edition = "2021"
publish = false

[dependencies]
rocksdb = "*"

[dev-dependencies]
bincode = "1"
serde = "*"
serde_bytes = "*"
hex = "*"
tempfile = "*"
