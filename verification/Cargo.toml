[package]
name = "aleph_tui"
version = "0.1.0"
edition = "2021"
publish = false

[dependencies]
serde_json = "=1.0.151"
reqwest = { version = "=0.13.5", default-features = false }
tokio = { version = "=1.53.2", features = ["rt-multi-thread", "macros", "time"] }
ratatui = "=0.30.2"
crossterm = "=0.29.0"
toml = { version = "=1.1.6", features = ["preserve_order"] }
chrono = "=0.4.45"
home = "=0.5.12"
color-eyre = "=0.6.5"
human-panic = "=2.0.8"
humanize-duration = "=0.0.7"
num-format = "=0.4.4"
