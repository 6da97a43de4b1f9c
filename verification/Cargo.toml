[package]
name = "todo_progress"
version = "0.1.0"
edition = "2021"
publish = false

[dependencies]
crossterm = "0.27"
directories = "5"
ratatui = "0.23"
serde = { version = "1", features = ["derive"] }
serde_json = "1"
