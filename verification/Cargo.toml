[package]
name = "wifitui"
version = "0.1.0"
edition = "2021"
publish = false

[dependencies]
bitflags = "2"
clap = { version = "4", features = ["derive"] }
crossterm = { version = "0.28", features = ["event-stream"] }
dirs = "6"
futures = "0.3"
ratatui = "0.29"
serde = { version = "1", features = ["derive"] }
thiserror = "2"
tokio = { version = "1", features = ["full"] }
toml = "0.8"
tui-input = "0.11"
zbus = "5"
zvariant = "5"
