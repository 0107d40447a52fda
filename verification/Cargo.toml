[package]
name = "brew_usage"
version = "0.1.0"
edition = "2021"
publish = false

[dependencies]
color-eyre = "0.6"
ratatui = "0.29"
unicode-width = "0.2"
