[package]
name = "mcfly_fzf"
version = "0.1.0"
edition = "2021"
publish = false

[dependencies]
chrono = "*"
clap = { version = "*", features = ["derive"] }
humantime = "*"
mcfly = "*"
rusqlite = "*"
