[package]
name = "chat_tui"
version = "0.1.0"
edition = "2021"
publish = false

[dependencies]
ratatui = "*"
crossterm = "*"
tokio = { version = "*", features = ["rt-multi-thread", "macros", "sync"] }
color-eyre = "*"
