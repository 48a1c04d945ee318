[package]
name = "ratatui_statusbar"
version = "0.1.0"
edition = "2021"
publish = false

[dependencies]
ratatui = "*"
thiserror = "*"
