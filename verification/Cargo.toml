[package]
name = "ccline_intro"
version = "0.1.0"
edition = "2021"
publish = false

[dependencies]
serde_json = "1"
dirs = "6"
ratatui = "0.29"
crossterm = "0.28"
