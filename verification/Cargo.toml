[package]
name = "fleet_updater"
version = "0.1.0"
edition = "2021"
publish = false

[dependencies]
anyhow = "*"
clap = { version = "*", features = ["derive"] }
crossterm = "*"
futures = "*"
ratatui = "*"
serde = { version = "*", features = ["derive"] }
serde_json = "*"
ssh2 = "*"
strip-ansi-escapes = "*"
tokio = { version = "*", features = ["rt-multi-thread", "sync", "macros", "time"] }
