[package]
name = "clire_combat"
version = "0.1.0"
edition = "2021"
publish = false

[dependencies]
rust_decimal = "1"
ratatui = "0.29"
crossterm = "0.28"
