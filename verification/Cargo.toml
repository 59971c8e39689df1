[package]
name = "interruptible_polling"
version = "0.1.0"
edition = "2021"
publish = false

[dependencies]
tokio-util = "0.7"
tokio = { version = "1", features = ["rt", "rt-multi-thread", "time", "sync", "macros"] }
thiserror = "1"
