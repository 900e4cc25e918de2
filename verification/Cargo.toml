[package]
name = "lfm"
version = "0.1.0"
edition = "2021"
publish = false

[dependencies]
ratatui = "*"
ratatui-image = { version = "*", default-features = false }
tui-term = "*"
tui_view = "*"
