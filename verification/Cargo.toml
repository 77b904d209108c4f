[package]
name = "arena_ffi"
version = "0.1.0"
edition = "2021"
publish = false

[dependencies]
serde = { version = "1", features = ["derive"] }
serde_json = "1"
tracing = "0.1"
tracing-subscriber = { version = "0.3", features = ["env-filter", "registry"] }
arc-swap = "1"
tokio = { version = "1", features = ["rt-multi-thread", "time", "net", "sync"] }
reqwest = { version = "0.12", default-features = false }
async-trait = "0.1"
futures = "0.3"
log = "0.4"
