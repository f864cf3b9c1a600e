[package]
name = "chat_composer"
version = "0.1.0"
edition = "2021"
publish = false

[dependencies]
tui-textarea = "=0.6.1"
ratatui = "=0.28.1"
crossterm = "=0.28.1"
