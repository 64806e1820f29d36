[package]
name = "drama"
version = "0.1.0"
edition = "2021"
publish = false

[dependencies]
flume = "0.11"
tokio = { version = "1", features = ["rt", "rt-multi-thread", "sync", "macros", "time"] }
futures = "0.3"
thiserror = "1"
tracing = "0.1"
async-trait = "0.1"
