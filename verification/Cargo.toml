[package]
name = "tetris_tui"
version = "0.1.0"
edition = "2021"
publish = false

[dependencies]
rand = "0.8"
clap = { version = "4", features = ["derive"] }
crossterm = "*"
local-ip-address = "*"
dirs = "*"
rusqlite = { version = "*", features = ["bundled"] }
