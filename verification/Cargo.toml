[package]
name = "chat_core"
version = "0.1.0"
edition = "2021"
publish = false

[dependencies]
ansi_term = "0.12"
rand = "0.8"
tokio = { version = "1", features = ["rt-multi-thread", "net", "io-util", "sync", "macros"] }
