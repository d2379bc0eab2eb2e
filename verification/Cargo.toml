[package]
name = "mengxi"
version = "0.1.0"
edition = "2021"
publish = false

[dependencies]
dirs = "*"
rusqlite = { version = "*", features = ["bundled"] }
image = { version = "*", default-features = false, features = ["png"] }
serde = { version = "1", features = ["derive"] }
serde_json = "1"
toml = "*"
thiserror = "*"
crossterm = "*"
ratatui = "*"
tokio = { version = "1", features = ["rt-multi-thread", "sync", "macros"] }
