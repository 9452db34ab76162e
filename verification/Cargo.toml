[package]
name = "ery"
version = "0.1.0"
edition = "2021"
publish = false

[dependencies]
anyhow = "=1.0.104"
clap = { version = "=4.6.7", features = ["derive"] }
crossterm = "=0.28.1"
everything-sdk = "=0.0.6"
ratatui = "=0.28.1"
tui-textarea = "=0.6.1"
