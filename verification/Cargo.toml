[package]
name = "lancedb_ffi"
version = "0.1.0"
edition = "2021"
publish = false

[dependencies]
sonic-rs = "=0.5.10"
arrow-array = { version = "=60.0.0", features = ["ffi"] }
arrow-schema = { version = "=60.0.0", features = ["ffi"] }
arrow-data = { version = "=60.0.0", features = ["ffi"] }
arrow-select = "=60.0.0"
tokio = { version = "=1.53.2", features = ["rt-multi-thread", "sync", "time"] }
libc = "=0.2.190"
lazy_static = "=1.5.1"
chrono = "=0.4.45"
