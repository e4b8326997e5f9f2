[package]
name = "beeper_automations"
version = "0.1.0"
edition = "2021"
publish = false

[dependencies]
uuid = { version = "*", features = ["v4"] }
anyhow = "*"
tokio = { version = "*", default-features = false, features = ["rt-multi-thread", "macros", "sync", "time", "signal"] }
notify = "*"
dirs = "*"
toml = "*"
serde = { version = "*", features = ["derive"] }
thiserror = "*"
crossterm = "*"
ratatui = "*"
chrono = { version = "*", default-features = false, features = ["clock"] }
tracing = "*"
tracing-subscriber = { version = "*", features = ["env-filter"] }
beeper-desktop-api = "*"
