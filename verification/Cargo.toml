[package]
name = "moneybook"
version = "0.1.0"
edition = "2021"
publish = false

[dependencies]
anyhow = "*"
chrono = { version = "*", default-features = false, features = ["alloc", "std"] }
ratatui = "*"
