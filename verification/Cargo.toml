[package]
name = "thumbflow"
version = "0.1.0"
edition = "2021"
publish = false

[dependencies]
futures = "*"
tokio = { version = "*", features = ["rt", "rt-multi-thread", "sync", "process", "fs", "macros", "io-util"] }
serde = { version = "*", features = ["derive"] }
serde_json = "*"
