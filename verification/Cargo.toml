[package]
name = "reformy"
version = "0.1.0"
edition = "2021"
publish = false

[dependencies]
crossterm = "0.28"
ratatui = { version = "0.29", features = ["unstable-widget-ref"] }
tui-textarea = "0.7"
proc-macro2 = "1"
quote = "1"
syn = "2"
