[package]
name = "midetor"
version = "0.1.0"
edition = "2021"
publish = false

[dependencies]
chrono = "*"
clap = "*"
crossterm = "*"
ratatui = "*"
rusqlite = { version = "*", features = ["bundled"] }
