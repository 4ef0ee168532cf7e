[package]
name = "ghwatch"
version = "0.1.0"
edition = "2021"
publish = false

[dependencies]
chrono = "=0.4.45"
serde = { version = "=1.0.229", features = ["derive"] }
serde_json = "=1.0.154"
toml = "=0.8.23"
anyhow = "=1.0.104"
tokio = { version = "=1.54.1", features = ["full"] }
directories = "=5.0.1"
fs2 = "=0.4.3"
crossterm = "=0.28.1"
ratatui = "=0.29.0"
notify-rust = "=4.18.2"
ratatui-themes = "*"
arboard = { version = "3", default-features = false }
comrak = { version = "*", default-features = false }
