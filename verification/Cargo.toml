[package]
name = "newsboy"
version = "0.1.0"
edition = "2021"
publish = false

[dependencies]
anyhow = "1"
google-cloud-pubsub = "0.30"
ratatui = "0.29"
tokio = { version = "1", features = ["macros", "rt-multi-thread", "sync", "time"] }
