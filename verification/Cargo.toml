[package]
name = "mml_editor"
version = "0.1.0"
edition = "2021"
publish = false

[dependencies]
anyhow = "=1.0.104"
crossterm = "=0.28.1"
ratatui = "=0.29.0"
tui-textarea = "=0.7.0"
