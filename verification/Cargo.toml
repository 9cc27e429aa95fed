[package]
name = "babelmap"
version = "0.1.0"
edition = "2021"
publish = false

[dependencies]
crossterm = "=0.28.1"
ratatui = "=0.29.0"
signal-hook = "=0.3.18"
