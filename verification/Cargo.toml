[package]
name = "kioto"
version = "0.1.0"
edition = "2021"
publish = false

[dependencies]
clap = "=4.6.7"
crossterm = "=0.28.1"
polodb_core = "4.4"
ratatui = "=0.29.0"
regex = "=1.13.1"
thiserror = "=1.0.69"
tui-pattern-highlighter = "=0.3.3"
tui-popup = "0.6"
tui-textarea = { version = "=0.7.0", features = ["search"] }
