[package]
name = "pori"
version = "0.1.0"
edition = "2021"
publish = false

[dependencies]
serde_json = "=1.0.151"
serde = { version = "=1.0.229", features = ["derive"] }
clap = "=4.6.7"
crossterm = "=0.28.1"
dirs = "=7.0.0"
headless_chrome = "=1.0.22"
log = "=0.4.34"
ratatui = "=0.29.0"
tokio = { version = "=1.53.2", features = ["rt-multi-thread", "macros", "sync", "time"] }
