[package]
name = "bopen"
version = "0.1.0"
edition = "2021"
publish = false

[dependencies]
regex = "1"
serde = { version = "1", features = ["derive"] }
serde_json = "1"
dirs = "5"
crossterm = "0.28"
ratatui = "0.28"
fork = "0.1"
libc = "0.2"
