[package]
name = "mirrorx_core"
version = "0.1.0"
edition = "2021"
publish = false

[dependencies]
ring = "0.17"
dashmap = "5"
tokio = { version = "1", features = ["net", "io-util", "time", "sync", "rt-multi-thread", "macros"] }
crossbeam = "0.8"
tracing = "0.1"
libc = "0.2"
