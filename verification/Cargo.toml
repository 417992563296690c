[package]
name = "tokio_tquic"
version = "0.1.0"
edition = "2021"
publish = false

[dependencies]
bytes = "1"
dashmap = "6"
pin-project-lite = "0.2"
thiserror = "1"
tokio = { version = "1", features = ["rt", "rt-multi-thread", "net", "sync", "time", "macros", "io-util"] }
tquic = "1"
tracing = "0.1"
