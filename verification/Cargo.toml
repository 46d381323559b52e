[package]
name = "flexprice"
version = "0.1.0"
edition = "2021"
publish = false

[dependencies]
anyhow = "*"
clap = { version = "*", features = ["derive"] }
colored = "*"
crossterm = "*"
dialoguer = "*"
dirs = "*"
dotenvy = "*"
indicatif = "*"
ratatui = "*"
reqwest = { version = "*", default-features = false, features = ["json", "blocking"] }
serde = { version = "*", features = ["derive"] }
serde_json = "*"
tabled = "*"
tokio = { version = "*", features = ["rt-multi-thread", "macros"] }
