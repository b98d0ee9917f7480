[package]
name = "ditto_quickstart"
version = "0.1.0"
edition = "2021"
publish = false

[dependencies]
anyhow = "*"
async-shutdown = "*"
clap = { version = "*", features = ["derive", "env"] }
crossterm = { version = "*", features = ["event-stream"] }
dittolive-ditto = "*"
dotenvy = "*"
futures = "*"
futures-concurrency = "*"
ratatui = "*"
serde = { version = "*", features = ["derive"] }
serde_json = "*"
tokio = { version = "*", features = ["macros", "rt-multi-thread", "sync", "time", "signal"] }
tokio-stream = { version = "*", features = ["time"] }
tracing = "*"
tracing-subscriber = "*"
uuid = { version = "*", features = ["v4"] }
