[package]
name = "raa_tui"
version = "0.1.0"
edition = "2021"
publish = false

[dependencies]
mlua = { version = "=0.9.9", features = ["lua54", "vendored"] }
eyre = "0.6"
anyhow = "1"
clap = { version = "4", features = ["derive"] }
crossterm = "=0.28.1"
ratatui = "=0.29.0"
edtui = "=0.9.9"
