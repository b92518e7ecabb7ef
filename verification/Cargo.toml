[package]
name = "stamba"
version = "0.1.0"
edition = "2021"
publish = false

[dependencies]
clap = { version = "=4.6.7", features = ["derive"] }
crossterm = { version = "=0.29.0", features = ["event-stream"] }
futures = "=0.3.34"
ratatui = { version = "=0.30.2", features = ["unstable-rendered-line-info"] }
tokio = { version = "=1.54.1", features = ["macros", "rt-multi-thread", "sync"] }
