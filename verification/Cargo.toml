[package]
name = "smart_cache"
version = "0.1.0"
edition = "2021"
publish = false

[dependencies]
redb = "=2.6.4"
sha2 = "=0.10.9"
rkyv = { version = "=0.8.18", features = ["unaligned"] }
dirs = "=5.0.1"
once_cell = "=1.21.4"
eyre = "=0.6.14"
tracing = "=0.1.44"
syn = { version = "=2.0.119", features = ["full"] }
quote = "=1.0.47"
proc-macro2 = "=1.0.107"

[dev-dependencies]
tempfile = "=3.27.0"
