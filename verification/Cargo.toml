[package]
name = "sidecar"
version = "0.1.0"
edition = "2021"
publish = false

[dependencies]
anyhow = "1"
os_pipe = "1"
shared_child = "1"
tokio = { version = "1", features = ["macros", "rt-multi-thread", "sync"] }
