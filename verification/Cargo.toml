[package]
name = "nodecode-terminal-kit"
version = "0.1.0"
edition = "2021"
publish = false

[dependencies]
crossterm = "0.28"
fuzzy-matcher = "0.3"
ratatui = "0.29"
serde = { version = "1", features = ["derive"] }
thiserror = "1"
tui-textarea = "0.7"
unicode-width = "0.2"
