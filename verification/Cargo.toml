[package]
name = "dds_dashboard"
version = "0.1.0"
edition = "2021"
publish = false

[dependencies]
chrono = "*"
crossterm = "*"
ratatui = "*"
rustdds = "*"
tracing = "*"
