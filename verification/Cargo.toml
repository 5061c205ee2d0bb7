[package]
name = "chatui"
version = "0.1.0"
edition = "2021"
publish = false

[dependencies]
ratatui = "*"
crossterm = { version = "*", features = ["event-stream"] }
tokio = { version = "*", features = ["rt", "rt-multi-thread", "macros", "sync", "time"] }
tokio-util = "*"
futures = "*"
color-eyre = "*"
