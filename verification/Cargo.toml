[package]
name = "discourse_tui"
version = "0.1.0"
edition = "2021"
publish = false

[dependencies]
crossterm = "*"
directories = "*"
discourse-api-rs = "*"
ratatui = "*"
regex = "1"
serde = { version = "1", features = ["derive"] }
tokio = { version = "1", features = ["full"] }
toml = "*"
